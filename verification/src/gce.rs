//! The machine as Google Compute Engine knows it: who it is, and how it is suspended.

use vstd::prelude::*;
use vstd::string::StringExecFns;

use crate::monitor::{ActionView, IdleEvent, IdleEventView, InputView, MonitorView};
use crate::request_id::{
    hyphenated, law_text_determines_id, law_text_reads_back, read_digits, RequestId,
};
use crate::text::{
    after_last, debug_text, is_white_space, last_segment, law_last_segment,
    law_last_segment_after_separator, law_trimmed, law_trimming_finds_inner,
    law_trimming_keeps_trimmed, law_white_space_trims_to_nothing, lemma_end_takes_white_space,
    quoted, trim, trimmed, trimmed_end, trimmed_start,
};

verus! {

/// Where the metadata server keeps its values.
pub const METADATA_BASE_URL: &'static str = "http://metadata.google.internal/computeMetadata/v1";

/// The name of the header that every metadata request carries.
pub const METADATA_HEADER_NAME: &'static str = "Metadata-Flavor";

/// The value of the header that every metadata request carries.
pub const METADATA_HEADER_VALUE: &'static str = "Google";

/// How this client names itself.
pub const USER_AGENT: &'static str = "beth-idle";

/// How long a metadata request may take, in seconds.
pub const DEFAULT_HTTP_TIMEOUT_SECS: u64 = 10;

/// A machine as Compute Engine names it.
#[derive(Debug, Clone, PartialEq, Eq)]
pub struct GceIdentity {
    pub project_id: String,
    pub zone: String,
    pub instance_name: String,
}

/// The text of a [`GceIdentity`].
pub struct IdentityView {
    pub project_id: Seq<char>,
    pub zone: Seq<char>,
    pub instance_name: Seq<char>,
}

impl View for GceIdentity {
    type V = IdentityView;

    open spec fn view(&self) -> IdentityView {
        IdentityView {
            project_id: self.project_id@,
            zone: self.zone@,
            instance_name: self.instance_name@,
        }
    }
}

/// A metadata value that names no zone.
#[derive(Debug, PartialEq, Eq)]
pub struct InvalidZone {
    pub raw: String,
}

/// What is said of a metadata value that names no zone, where `quoted` is the value in
/// quotes.
pub fn invalid_zone_message(quoted: &str) -> (text: String)
    ensures
        text@ == "invalid metadata zone value: "@ + quoted@,
{
    "invalid metadata zone value: ".to_string().concat(quoted)
}

impl InvalidZone {
    /// The error as text.
    pub fn message(&self) -> (text: String)
        ensures
            text@ == "invalid metadata zone value: "@ + debug_text(self.raw@),
    {
        invalid_zone_message(quoted(self.raw.as_str()).as_str())
    }
}

/// The zone that a metadata value such as `projects/123456/zones/europe-west1-b` names:
/// its last path segment, if that is not empty.
pub open spec fn zone_of(raw: Seq<char>) -> Option<Seq<char>> {
    let zone = after_last(trimmed(raw), '/');
    if zone.len() == 0 {
        None
    } else {
        Some(zone)
    }
}

/// The zone that the metadata value `raw` names.
pub fn parse_zone(raw: &str) -> (res: Result<String, InvalidZone>)
    ensures
        match zone_of(raw@) {
            Some(zone) => res matches Ok(text) && text@ == zone,
            None => res matches Err(invalid) && invalid.raw@ == raw@,
        },
        res is Ok <==> after_last(trimmed(raw@), '/').len() > 0,
        res matches Ok(text) ==> text@ == after_last(trimmed(raw@), '/'),
{
    let zone = last_segment(trim(raw), '/');
    if zone.unicode_len() == 0 {
        return Err(InvalidZone { raw: raw.to_string() });
    }
    Ok(zone.to_string())
}

/// The URL of the metadata value at `path`.
pub fn metadata_url(path: &str) -> (url: String)
    ensures
        url@ == METADATA_BASE_URL@ + "/"@ + path@,
{
    METADATA_BASE_URL.to_string().concat("/").concat(path)
}

/// A reply of the metadata server that reports a failure.
#[derive(Debug, PartialEq, Eq)]
pub struct MetadataError {
    /// The HTTP status of the reply.
    pub status: u16,
    /// The body of the reply.
    pub body: String,
}

/// An HTTP status as text: its number and what it stands for.
pub uninterp spec fn status_text(status: u16) -> Seq<char>;

/// Calls `reqwest::StatusCode::from_u16`, and `to_string` on what it gives, that is its
/// `Display`.
///
/// Claimed: what is written depends on the number alone; it goes by the name
/// [`status_text`]. The words for each number are left unsaid. Numbers that do not have
/// three digits are no status, and shut out.
#[verifier::external_body]
fn status_to_string(status: u16) -> (text: String)
    requires
        100 <= status < 1000,
    ensures
        text@ == status_text(status),
{
    reqwest::StatusCode::from_u16(status).unwrap().to_string()
}

impl MetadataError {
    /// The error as text.
    pub fn message(&self) -> (text: String)
        requires
            100 <= self.status < 1000,
        ensures
            text@ == "metadata request failed (status="@ + status_text(self.status) + "): "@
                + self.body@,
    {
        self.message_with(status_to_string(self.status).as_str())
    }

    /// The error as text, where `status` is the text of the HTTP status.
    pub fn message_with(&self, status: &str) -> (text: String)
        ensures
            text@ == "metadata request failed (status="@ + status@ + "): "@ + self.body@,
    {
        "metadata request failed (status=".to_string().concat(status).concat("): ").concat(
            self.body.as_str(),
        )
    }
}

/// What is said when no reply came, where `quoted` is the URL in quotes.
pub fn query_failure_message(quoted: &str) -> (text: String)
    ensures
        text@ == "failed to query GCE metadata "@ + quoted@,
{
    "failed to query GCE metadata ".to_string().concat(quoted)
}

/// What is said when no reply came to a request to `url`.
pub fn query_failure(url: &str) -> (text: String)
    ensures
        text@ == "failed to query GCE metadata "@ + debug_text(url@),
{
    query_failure_message(quoted(url).as_str())
}

/// Whether an HTTP status reports success.
pub open spec fn is_success(status: u16) -> bool {
    200 <= status < 300
}

/// The text of a reply's body; a body that could not be read counts as empty.
pub open spec fn body_text(body: Option<String>) -> Seq<char> {
    match body {
        Some(text) => text@,
        None => Seq::empty(),
    }
}

/// The metadata value in a reply with the given status and body, `None` where the body
/// could not be read.
pub fn metadata_value(status: u16, body: Option<String>) -> (res: Result<String, MetadataError>)
    ensures
        if is_success(status) {
            res matches Ok(value) && value@ == trimmed(body_text(body))
        } else {
            res matches Err(e) && e.status == status && e.body@ == body_text(body)
        },
        res is Ok <==> 200 <= status < 300,
        match body {
            Some(text) => {
                &&& res matches Ok(value) ==> value@ == trimmed(text@)
                &&& res matches Err(e) ==> e.status == status && e.body@ == text@
            },
            None => {
                &&& res matches Ok(value) ==> value@.len() == 0
                &&& res matches Err(e) ==> e.status == status && e.body@.len() == 0
            },
        },
{
    let text = match body {
        Some(text) => text,
        None => String::new(),
    };
    if !(200 <= status && status < 300) {
        return Err(MetadataError { status, body: text });
    }
    Ok(trim(text.as_str()).to_string())
}

/// A value of the metadata server.
#[derive(Debug, Clone, Copy, PartialEq, Eq, Structural)]
pub enum MetadataKey {
    ProjectId,
    Zone,
    InstanceName,
}

impl MetadataKey {
    /// The path of the value below the base URL.
    pub open spec fn spec_path(self) -> Seq<char> {
        match self {
            MetadataKey::ProjectId => "project/project-id"@,
            MetadataKey::Zone => "instance/zone"@,
            MetadataKey::InstanceName => "instance/name"@,
        }
    }

    /// What is said when the value cannot be read.
    pub open spec fn spec_context(self) -> Seq<char> {
        match self {
            MetadataKey::ProjectId => "failed to read project id from metadata"@,
            MetadataKey::Zone => "failed to read zone from metadata"@,
            MetadataKey::InstanceName => "failed to read instance name from metadata"@,
        }
    }

    /// The path of the value below the base URL.
    pub fn path(self) -> (path: &'static str)
        ensures
            path@ == self.spec_path(),
            self is ProjectId ==> path@ == "project/project-id"@,
            self is Zone ==> path@ == "instance/zone"@,
            self is InstanceName ==> path@ == "instance/name"@,
    {
        match self {
            MetadataKey::ProjectId => "project/project-id",
            MetadataKey::Zone => "instance/zone",
            MetadataKey::InstanceName => "instance/name",
        }
    }

    /// What is said when the value cannot be read.
    pub fn context(self) -> (text: &'static str)
        ensures
            text@ == self.spec_context(),
            self is ProjectId ==> text@ == "failed to read project id from metadata"@,
            self is Zone ==> text@ == "failed to read zone from metadata"@,
            self is InstanceName ==> text@ == "failed to read instance name from metadata"@,
    {
        match self {
            MetadataKey::ProjectId => "failed to read project id from metadata",
            MetadataKey::Zone => "failed to read zone from metadata",
            MetadataKey::InstanceName => "failed to read instance name from metadata",
        }
    }
}

/// How far the machine has come in finding out who it is: which value it reads next, and
/// what it has read so far.
#[derive(Debug)]
pub enum IdentityProbe {
    ProjectId,
    Zone { project_id: String },
    InstanceName { project_id: String, zone: String },
}

/// The text that an [`IdentityProbe`] holds.
pub enum ProbeView {
    ProjectId,
    Zone { project_id: Seq<char> },
    InstanceName { project_id: Seq<char>, zone: Seq<char> },
}

impl View for IdentityProbe {
    type V = ProbeView;

    open spec fn view(&self) -> ProbeView {
        match *self {
            IdentityProbe::ProjectId => ProbeView::ProjectId,
            IdentityProbe::Zone { project_id } => ProbeView::Zone { project_id: project_id@ },
            IdentityProbe::InstanceName { project_id, zone } => ProbeView::InstanceName {
                project_id: project_id@,
                zone: zone@,
            },
        }
    }
}

/// Why the machine could not find out who it is.
#[derive(Debug)]
pub enum IdentityError<E> {
    /// A value could not be read.
    Unreadable { key: MetadataKey, cause: E },
    /// The zone that was read names none.
    InvalidZone(InvalidZone),
}

/// The text of an [`IdentityError`].
pub enum IdentityErrorView<E> {
    Unreadable { key: MetadataKey, cause: E },
    InvalidZone { raw: Seq<char> },
}

impl<E> View for IdentityError<E> {
    type V = IdentityErrorView<E>;

    open spec fn view(&self) -> IdentityErrorView<E> {
        match *self {
            IdentityError::Unreadable { key, cause } => IdentityErrorView::Unreadable {
                key,
                cause,
            },
            IdentityError::InvalidZone(invalid) => IdentityErrorView::InvalidZone {
                raw: invalid.raw@,
            },
        }
    }
}

/// What follows from one value.
#[derive(Debug)]
pub enum ProbeStep<E> {
    /// Another value is to be read.
    Ask(IdentityProbe),
    /// The identity is known, or cannot be had.
    Done(Result<GceIdentity, IdentityError<E>>),
}

/// The text of a [`ProbeStep`].
pub enum ProbeStepView<E> {
    Ask(ProbeView),
    Done(Result<IdentityView, IdentityErrorView<E>>),
}

impl<E> View for ProbeStep<E> {
    type V = ProbeStepView<E>;

    open spec fn view(&self) -> ProbeStepView<E> {
        match *self {
            ProbeStep::Ask(probe) => ProbeStepView::Ask(probe@),
            ProbeStep::Done(Ok(identity)) => ProbeStepView::Done(Ok(identity@)),
            ProbeStep::Done(Err(e)) => ProbeStepView::Done(Err(e@)),
        }
    }
}

/// `reply` with its value as a sequence of characters.
pub open spec fn reply_text<E>(reply: Result<String, E>) -> Result<Seq<char>, E> {
    match reply {
        Ok(value) => Ok(value@),
        Err(e) => Err(e),
    }
}

/// The identity that the three metadata values give.
pub open spec fn identity_from<E>(
    project_id: Seq<char>,
    zone: Seq<char>,
    instance_name: Seq<char>,
) -> Result<IdentityView, IdentityErrorView<E>> {
    match zone_of(zone) {
        Some(zone) => Ok(IdentityView { project_id, zone, instance_name }),
        None => Err(IdentityErrorView::InvalidZone { raw: zone }),
    }
}

impl ProbeView {
    /// Which value is read next.
    pub open spec fn key(self) -> MetadataKey {
        match self {
            ProbeView::ProjectId => MetadataKey::ProjectId,
            ProbeView::Zone { .. } => MetadataKey::Zone,
            ProbeView::InstanceName { .. } => MetadataKey::InstanceName,
        }
    }

    /// What follows once the value was read, or could not be.
    pub open spec fn advance<E>(self, reply: Result<Seq<char>, E>) -> ProbeStepView<E> {
        match reply {
            Err(cause) => ProbeStepView::Done(
                Err(IdentityErrorView::Unreadable { key: self.key(), cause }),
            ),
            Ok(value) => match self {
                ProbeView::ProjectId => ProbeStepView::Ask(ProbeView::Zone { project_id: value }),
                ProbeView::Zone { project_id } => ProbeStepView::Ask(
                    ProbeView::InstanceName { project_id, zone: value },
                ),
                ProbeView::InstanceName { project_id, zone } => ProbeStepView::Done(
                    identity_from(project_id, zone, value),
                ),
            },
        }
    }

    /// How many values are read, and what comes of it, when reads give `replies` in turn;
    /// `None` where the replies run out first.
    pub open spec fn run<E>(self, replies: Seq<Result<Seq<char>, E>>) -> Option<
        (nat, Result<IdentityView, IdentityErrorView<E>>),
    >
        decreases replies.len(),
    {
        if replies.len() == 0 {
            None
        } else {
            match self.advance(replies[0]) {
                ProbeStepView::Done(res) => Some((1, res)),
                ProbeStepView::Ask(probe) => match probe.run(replies.drop_first()) {
                    Some((reads, res)) => Some((reads + 1, res)),
                    None => None,
                },
            }
        }
    }
}

impl IdentityProbe {
    /// The probe that has read nothing yet.
    pub fn start() -> (probe: IdentityProbe)
        ensures
            probe@ == ProbeView::ProjectId,
            probe is ProjectId,
    {
        IdentityProbe::ProjectId
    }

    /// Which value is read next.
    pub fn key(&self) -> (key: MetadataKey)
        ensures
            key == self@.key(),
            self is ProjectId <==> key is ProjectId,
            self is Zone <==> key is Zone,
            self is InstanceName <==> key is InstanceName,
    {
        match self {
            IdentityProbe::ProjectId => MetadataKey::ProjectId,
            IdentityProbe::Zone { .. } => MetadataKey::Zone,
            IdentityProbe::InstanceName { .. } => MetadataKey::InstanceName,
        }
    }

    /// Takes in the value that was read, or why it could not be.
    pub fn advance<E>(self, reply: Result<String, E>) -> (step: ProbeStep<E>)
        ensures
            step@ == self@.advance(reply_text(reply)),
            match reply {
                Err(cause) => {
                    &&& step matches ProbeStep::Done(
                        Err(IdentityError::Unreadable { key, cause: why }),
                    )
                    &&& why == cause
                    &&& self is ProjectId <==> key is ProjectId
                    &&& self is Zone <==> key is Zone
                    &&& self is InstanceName <==> key is InstanceName
                },
                Ok(value) => match self {
                    IdentityProbe::ProjectId => {
                        &&& step matches ProbeStep::Ask(IdentityProbe::Zone { project_id })
                        &&& project_id@ == value@
                    },
                    IdentityProbe::Zone { project_id: project } => {
                        &&& step matches ProbeStep::Ask(
                            IdentityProbe::InstanceName { project_id, zone },
                        )
                        &&& project_id@ == project@
                        &&& zone@ == value@
                    },
                    IdentityProbe::InstanceName { project_id, zone } => match zone_of(zone@) {
                        Some(named) => {
                            &&& step matches ProbeStep::Done(Ok(identity))
                            &&& identity.project_id@ == project_id@
                            &&& identity.zone@ == named
                            &&& identity.instance_name@ == value@
                        },
                        None => {
                            &&& step matches ProbeStep::Done(
                                Err(IdentityError::InvalidZone(invalid)),
                            )
                            &&& invalid.raw@ == zone@
                        },
                    },
                },
            },
    {
        let key = self.key();
        let value = match reply {
            Ok(value) => value,
            Err(cause) => {
                return ProbeStep::Done(Err(IdentityError::Unreadable { key, cause }));
            },
        };
        match self {
            IdentityProbe::ProjectId => ProbeStep::Ask(IdentityProbe::Zone { project_id: value }),
            IdentityProbe::Zone { project_id } => ProbeStep::Ask(
                IdentityProbe::InstanceName { project_id, zone: value },
            ),
            IdentityProbe::InstanceName { project_id, zone } => match parse_zone(zone.as_str()) {
                Ok(zone) => ProbeStep::Done(
                    Ok(GceIdentity { project_id, zone, instance_name: value }),
                ),
                Err(invalid) => ProbeStep::Done(Err(IdentityError::InvalidZone(invalid))),
            },
        }
    }
}

/// A suspension to be asked for, of whichever machine this is.
#[derive(Debug, Clone, Copy, PartialEq, Eq, Structural)]
pub struct SuspendOrder {
    /// Whether what is on local disks may be lost.
    pub discard_local_ssd: bool,
    /// Identifies the request.
    pub request_id: RequestId,
}

/// What is said of a suspension that failed.
pub const SUSPEND_FAILED: &'static str = "beth-idle: suspend_self failed";

impl IdleEventView {
    /// The suspension that an idle machine asks for: local disks are kept.
    pub open spec fn suspend_order(self) -> SuspendOrder {
        SuspendOrder { discard_local_ssd: false, request_id: self.request_id }
    }
}

impl IdleEvent {
    /// The suspension that an idle machine asks for: local disks are kept.
    pub fn suspend_order(&self) -> (order: SuspendOrder)
        ensures
            order == self@.suspend_order(),
            !order.discard_local_ssd,
            order.request_id == self.request_id,
    {
        SuspendOrder { discard_local_ssd: false, request_id: self.request_id }
    }
}

/// What is sent to Compute Engine to suspend a machine.
#[derive(Debug, PartialEq, Eq)]
pub struct SuspendRequest {
    pub project: String,
    pub zone: String,
    pub instance: String,
    pub request_id: String,
    pub discard_local_ssd: bool,
}

/// The text of a [`SuspendRequest`].
pub struct SuspendRequestView {
    pub project: Seq<char>,
    pub zone: Seq<char>,
    pub instance: Seq<char>,
    pub request_id: Seq<char>,
    pub discard_local_ssd: bool,
}

impl View for SuspendRequest {
    type V = SuspendRequestView;

    open spec fn view(&self) -> SuspendRequestView {
        SuspendRequestView {
            project: self.project@,
            zone: self.zone@,
            instance: self.instance@,
            request_id: self.request_id@,
            discard_local_ssd: self.discard_local_ssd,
        }
    }
}

impl SuspendOrder {
    /// The request that carries out the order for one machine.
    pub open spec fn spec_request(self, identity: IdentityView) -> SuspendRequestView {
        SuspendRequestView {
            project: identity.project_id,
            zone: identity.zone,
            instance: identity.instance_name,
            request_id: hyphenated(self.request_id.bits),
            discard_local_ssd: self.discard_local_ssd,
        }
    }

    /// The request that carries out the order for the machine `identity`.
    pub fn request(&self, identity: &GceIdentity) -> (request: SuspendRequest)
        ensures
            request@ == self.spec_request(identity@),
            request.project@ == identity.project_id@,
            request.zone@ == identity.zone@,
            request.instance@ == identity.instance_name@,
            read_digits(request.request_id@) == self.request_id.bits,
            request.discard_local_ssd == self.discard_local_ssd,
    {
        SuspendRequest {
            project: identity.project_id.clone(),
            zone: identity.zone.clone(),
            instance: identity.instance_name.clone(),
            request_id: self.request_id.to_text(),
            discard_local_ssd: self.discard_local_ssd,
        }
    }
}

/// A zone is never empty and never a path.
pub proof fn law_zone_is_one_segment(raw: Seq<char>)
    ensures
        zone_of(raw) matches Some(zone) ==> zone.len() > 0 && !zone.contains('/'),
{
    law_last_segment(trimmed(raw), '/');
}

/// The zone at the end of a path is found, whatever the path and the white space after it.
pub proof fn law_zone_at_end_of_path(path: Seq<char>, zone: Seq<char>, after: Seq<char>)
    requires
        zone.len() > 0,
        !zone.contains('/'),
        !is_white_space(zone.last()),
        forall|i: int| 0 <= i < after.len() ==> is_white_space(#[trigger] after[i]),
    ensures
        zone_of(path.push('/') + zone + after) == Some(zone),
{
    let raw = path.push('/') + zone + after;
    let start = lemma_trimmed_start_stops_at(path, '/', zone + after);
    assert(path.push('/') + (zone + after) == raw);
    assert(trimmed_start(raw) == (start.push('/') + zone) + after);
    lemma_trimmed_end_takes_white_space(start.push('/') + zone, after);
    assert((start.push('/') + zone).last() == zone.last());
    law_last_segment_after_separator(start, '/', zone);
}

/// A zone that stands alone is found.
pub proof fn law_plain_zone(zone: Seq<char>)
    requires
        zone.len() > 0,
        !zone.contains('/'),
        !is_white_space(zone[0]),
        !is_white_space(zone.last()),
    ensures
        zone_of(zone) == Some(zone),
{
    law_trimming_keeps_trimmed(zone);
    law_last_segment_after_separator(Seq::empty(), '/', zone);
}

/// A zone that stands alone is found among white space, too.
pub proof fn law_zone_among_white_space(before: Seq<char>, zone: Seq<char>, after: Seq<char>)
    requires
        zone.len() > 0,
        !zone.contains('/'),
        !is_white_space(zone[0]),
        !is_white_space(zone.last()),
        forall|i: int| 0 <= i < before.len() ==> is_white_space(#[trigger] before[i]),
        forall|i: int| 0 <= i < after.len() ==> is_white_space(#[trigger] after[i]),
    ensures
        zone_of(before + zone + after) == Some(zone),
{
    law_trimming_finds_inner(before, zone, after);
    law_last_segment_after_separator(Seq::empty(), '/', zone);
}

/// The zone is what ends the trimmed value and follows its last slash; there is none exactly
/// if nothing does.
pub proof fn law_zone_ends_value(raw: Seq<char>)
    ensures
        zone_of(raw) is None <==> trimmed(raw).len() == 0 || trimmed(raw).last() == '/',
        zone_of(raw) matches Some(zone) ==> {
            &&& zone.is_suffix_of(trimmed(raw))
            &&& zone != trimmed(raw) ==> trimmed(raw)[trimmed(raw).len() - zone.len() - 1] == '/'
        },
{
    law_last_segment(trimmed(raw), '/');
}

/// White space, or a path that ends in a slash, names no zone.
pub proof fn law_no_zone(path: Seq<char>, after: Seq<char>)
    requires
        forall|i: int| 0 <= i < after.len() ==> is_white_space(#[trigger] after[i]),
    ensures
        zone_of(after) is None,
        zone_of(path.push('/') + after) is None,
{
    lemma_white_space_trims_to_nothing(after);
    let raw = path.push('/') + after;
    let start = lemma_trimmed_start_stops_at(path, '/', after);
    lemma_trimmed_end_takes_white_space(start.push('/'), after);
    assert(!is_white_space('/'));
}

/// White space around a metadata value does not matter for its zone, whether or not it was
/// trimmed before.
pub proof fn law_zone_of_trimmed_value(raw: Seq<char>)
    ensures
        zone_of(trimmed(raw)) == zone_of(raw),
{
    let _ = law_trimmed(raw);
    law_trimming_keeps_trimmed(trimmed(raw));
}

/// Each metadata value has its own place and is asked for in its own words.
pub proof fn law_metadata_keys()
    ensures
        MetadataKey::ProjectId.spec_path() == "project/project-id"@,
        MetadataKey::Zone.spec_path() == "instance/zone"@,
        MetadataKey::InstanceName.spec_path() == "instance/name"@,
        MetadataKey::ProjectId.spec_context() == "failed to read project id from metadata"@,
        MetadataKey::Zone.spec_context() == "failed to read zone from metadata"@,
        MetadataKey::InstanceName.spec_context() == "failed to read instance name from metadata"@,
{
}

/// How metadata requests are made.
pub proof fn law_metadata_requests()
    ensures
        METADATA_BASE_URL@ == "http://metadata.google.internal/computeMetadata/v1"@,
        METADATA_HEADER_NAME@ == "Metadata-Flavor"@,
        METADATA_HEADER_VALUE@ == "Google"@,
        USER_AGENT@ == "beth-idle"@,
        DEFAULT_HTTP_TIMEOUT_SECS == 10,
{
}

/// The statuses from 200 to 299 report success, and they alone.
pub proof fn law_success_statuses(status: u16)
    ensures
        is_success(status) <==> status / 100 == 2,
{
}

/// A body that was read counts as it is, and one that was not as empty.
pub proof fn law_body_counts_as_read(body: String)
    ensures
        body_text(Some(body)) == body@,
        body_text(None).len() == 0,
{
}

/// Three values that were read, of which the second names a zone, give the identity with
/// each value in its place: the project and the instance name as they were read, and the
/// zone that was named.
pub proof fn law_identity_holds_what_was_read<E>(
    project_id: Seq<char>,
    zone: Seq<char>,
    instance_name: Seq<char>,
    named: Seq<char>,
)
    requires
        zone_of(zone) == Some(named),
    ensures
        ProbeView::ProjectId.run::<E>(
            seq![Ok(project_id), Ok(zone), Ok(instance_name)],
        ) matches Some((reads, Ok(identity))) && {
            &&& reads == 3
            &&& identity.project_id == project_id
            &&& identity.zone == named
            &&& identity.instance_name == instance_name
        },
{
    law_identity_takes_three_values::<E>(project_id, zone, instance_name);
}

/// Three values that were read, of which the second names no zone, give the error that holds
/// the second.
pub proof fn law_identity_needs_zone<E>(
    project_id: Seq<char>,
    zone: Seq<char>,
    instance_name: Seq<char>,
)
    requires
        zone_of(zone) is None,
    ensures
        ProbeView::ProjectId.run::<E>(
            seq![Ok(project_id), Ok(zone), Ok(instance_name)],
        ) matches Some((reads, Err(IdentityErrorView::InvalidZone { raw }))) && reads == 3 && raw
            == zone,
{
    law_identity_takes_three_values::<E>(project_id, zone, instance_name);
}

/// A probe keeps what it has read, and puts each value in its place.
pub proof fn law_probe_keeps_what_was_read<E>(
    project_id: Seq<char>,
    zone: Seq<char>,
    value: Seq<char>,
    cause: E,
    probe: ProbeView,
)
    ensures
        ProbeView::ProjectId.key() is ProjectId,
        (ProbeView::Zone { project_id }).key() is Zone,
        (ProbeView::InstanceName { project_id, zone }).key() is InstanceName,
        ProbeView::ProjectId.advance::<E>(Ok(value)) matches ProbeStepView::Ask(
            ProbeView::Zone { project_id: p },
        ) && p == value,
        (ProbeView::Zone { project_id }).advance::<E>(Ok(value)) matches ProbeStepView::Ask(
            ProbeView::InstanceName { project_id: p, zone: z },
        ) && p == project_id && z == value,
        zone_of(zone) matches Some(named) ==> ((ProbeView::InstanceName {
            project_id,
            zone,
        }).advance::<E>(Ok(value)) matches ProbeStepView::Done(Ok(identity)) && {
            &&& identity.project_id == project_id
            &&& identity.zone == named
            &&& identity.instance_name == value
        }),
        probe.advance::<E>(Err(cause)) matches ProbeStepView::Done(
            Err(IdentityErrorView::Unreadable { key, cause: why }),
        ) && key == probe.key() && why == cause,
{
}

/// The three values are read in turn, and together give the identity.
pub proof fn law_identity_takes_three_values<E>(
    project_id: Seq<char>,
    zone: Seq<char>,
    instance_name: Seq<char>,
)
    ensures
        ProbeView::ProjectId.run::<E>(seq![Ok(project_id), Ok(zone), Ok(instance_name)]) == Some(
            (3nat, identity_from::<E>(project_id, zone, instance_name)),
        ),
        ProbeView::ProjectId.key() == MetadataKey::ProjectId,
        ProbeView::ProjectId.advance::<E>(Ok(project_id)) matches ProbeStepView::Ask(second) && {
            &&& second.key() == MetadataKey::Zone
            &&& second.advance::<E>(Ok(zone)) matches ProbeStepView::Ask(third) && third.key()
                == MetadataKey::InstanceName
        },
{
    let all: Seq<Result<Seq<char>, E>> = seq![Ok(project_id), Ok(zone), Ok(instance_name)];
    reveal_with_fuel(ProbeView::run, 4);
    assert(all.drop_first() == seq![Ok::<Seq<char>, E>(zone), Ok(instance_name)]);
    assert(all.drop_first().drop_first() == seq![Ok::<Seq<char>, E>(instance_name)]);
}

/// The first value that cannot be read ends the probe, and nothing is read after it.
pub proof fn law_unreadable_value_ends_probe<E>(
    replies: Seq<Result<Seq<char>, E>>,
    n: int,
    cause: E,
)
    requires
        0 <= n < 3,
        n < replies.len(),
        forall|i: int| 0 <= i < n ==> (#[trigger] replies[i]) is Ok,
        replies[n] == Err::<Seq<char>, E>(cause),
    ensures
        ProbeView::ProjectId.run(replies) == Some(
            (
                (n + 1) as nat,
                Err::<IdentityView, IdentityErrorView<E>>(
                    IdentityErrorView::Unreadable {
                        key: if n == 0 {
                            MetadataKey::ProjectId
                        } else if n == 1 {
                            MetadataKey::Zone
                        } else {
                            MetadataKey::InstanceName
                        },
                        cause,
                    },
                ),
            ),
        ),
{
    reveal_with_fuel(ProbeView::run, 4);
    if n > 0 {
        assert(replies[0] is Ok);
        assert(replies.drop_first()[0] == replies[1]);
    }
    if n > 1 {
        assert(replies[1] is Ok);
        assert(replies.drop_first().drop_first()[0] == replies[2]);
    }
}

/// An idle machine is suspended under its own names, with its local disks kept, and under
/// the identifier of the event that said so.
pub proof fn law_idle_machine_keeps_its_disks(event: IdleEventView, identity: IdentityView)
    ensures
        ({
            let request = event.suspend_order().spec_request(identity);
            &&& !request.discard_local_ssd
            &&& request.request_id == hyphenated(event.request_id.bits)
            &&& request.project == identity.project_id
            &&& request.zone == identity.zone
            &&& request.instance == identity.instance_name
        }),
{
}

/// Each trigger is one suspension: with local disks kept, under the identifier of its event,
/// and with no other before it has ended. However it ends, the monitor goes on, and in the
/// same way.
pub proof fn law_each_trigger_is_one_suspension(
    m: MonitorView,
    tick: InputView,
    request_id: RequestId,
    ended: nat,
    succeeded: bool,
    meanwhile: InputView,
)
    requires
        m.accepts(tick),
        m.suspends(tick),
    ensures
        m.action(tick, request_id) matches ActionView::Suspend(event) && event.suspend_order() == (
        SuspendOrder { discard_local_ssd: false, request_id }),
        ({
            let suspending = m.next(tick);
            let end = InputView::SuspendFinished { now: ended, succeeded };
            let failed = InputView::SuspendFinished { now: ended, succeeded: false };
            &&& suspending.accepts(meanwhile) ==> !suspending.suspends(meanwhile)
            &&& suspending.accepts(end)
            &&& suspending.action(end, request_id) == ActionView::AwaitTick
            &&& !suspending.next(end).stopped
            &&& suspending.next(end) == suspending.next(failed)
        }),
{
}

/// A request names the machine, carries the identifier so that it can be read back, and
/// leaves the local disks to the order.
pub proof fn law_request_carries_order(order: SuspendOrder, identity: IdentityView)
    ensures
        ({
            let request = order.spec_request(identity);
            &&& request.project == identity.project_id
            &&& request.zone == identity.zone
            &&& request.instance == identity.instance_name
            &&& read_digits(request.request_id) == order.request_id.bits
            &&& request.discard_local_ssd == order.discard_local_ssd
        }),
{
    law_text_reads_back(order.request_id.bits);
}

/// Identities, probes and requests are seen as they are, part by part.
pub proof fn law_seen_as_they_are(
    identity: GceIdentity,
    project_id: String,
    zone: String,
    request: SuspendRequest,
    invalid: InvalidZone,
)
    ensures
        identity@.project_id == identity.project_id@,
        identity@.zone == identity.zone@,
        identity@.instance_name == identity.instance_name@,
        IdentityProbe::ProjectId@ is ProjectId,
        (IdentityProbe::Zone { project_id })@ matches ProbeView::Zone { project_id: p } && p
            == project_id@,
        (IdentityProbe::InstanceName { project_id, zone })@ matches ProbeView::InstanceName {
            project_id: p,
            zone: z,
        } && p == project_id@ && z == zone@,
        request@.project == request.project@,
        request@.zone == request.zone@,
        request@.instance == request.instance@,
        request@.request_id == request.request_id@,
        request@.discard_local_ssd == request.discard_local_ssd,
        IdentityError::<()>::InvalidZone(invalid)@ matches IdentityErrorView::InvalidZone { raw }
            && raw == invalid.raw@,
{
}

/// A reply is seen as it is: its value character by character, or its error.
pub proof fn law_reply_seen_as_it_is<E>(value: String, cause: E)
    ensures
        reply_text(Ok::<String, E>(value)) == Ok::<Seq<char>, E>(value@),
        reply_text(Err::<String, E>(cause)) == Err::<Seq<char>, E>(cause),
{
}

/// Requests with different identifiers are told apart by what is sent.
pub proof fn law_requests_are_told_apart(
    a: SuspendOrder,
    b: SuspendOrder,
    identity: IdentityView,
)
    requires
        a.request_id != b.request_id,
    ensures
        a.spec_request(identity).request_id != b.spec_request(identity).request_id,
{
    if hyphenated(a.request_id.bits) == hyphenated(b.request_id.bits) {
        law_text_determines_id(a.request_id.bits, b.request_id.bits);
    }
}

/// Trimming at the start stops at the latest at the first character that is not white
/// space, and keeps all from there on.
proof fn lemma_trimmed_start_stops_at(before: Seq<char>, stop: char, after: Seq<char>) -> (kept:
    Seq<char>)
    requires
        !is_white_space(stop),
    ensures
        trimmed_start(before.push(stop) + after) == kept.push(stop) + after,
    decreases before.len(),
{
    let s = before.push(stop) + after;
    if before.len() > 0 && is_white_space(before[0]) {
        assert(s[0] == before[0]);
        assert(s.drop_first() == before.drop_first().push(stop) + after);
        lemma_trimmed_start_stops_at(before.drop_first(), stop, after)
    } else {
        assert(!is_white_space(s[0]));
        before
    }
}

/// Trimming at the end takes all white space after a character that is none.
proof fn lemma_trimmed_end_takes_white_space(s: Seq<char>, after: Seq<char>)
    requires
        s.len() > 0,
        !is_white_space(s.last()),
        forall|i: int| 0 <= i < after.len() ==> is_white_space(#[trigger] after[i]),
    ensures
        trimmed_end(s + after) == s,
{
    lemma_end_takes_white_space(s, after);
}

proof fn lemma_white_space_trims_to_nothing(s: Seq<char>)
    requires
        forall|i: int| 0 <= i < s.len() ==> is_white_space(#[trigger] s[i]),
    ensures
        trimmed(s).len() == 0,
{
    law_white_space_trims_to_nothing(s);
}

} // verus!
