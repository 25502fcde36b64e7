use beth_idle::gce::{
    invalid_zone_message, metadata_url, metadata_value, parse_zone, query_failure,
    query_failure_message, GceIdentity, IdentityError, IdentityProbe,
    InvalidZone, MetadataError, MetadataKey, ProbeStep, SuspendOrder, SuspendRequest, SUSPEND_FAILED,
};
use beth_idle::request_id::RequestId;
use beth_idle::text::{last_segment, trim, white_space};
use beth_idle::time::Duration;
use beth_idle::IdleEvent;

#[test]
fn parses_zone_from_metadata_path() {
    let zone = parse_zone("projects/123456/zones/europe-west1-b").unwrap();
    assert_eq!(zone, "europe-west1-b");
}

#[test]
fn parses_plain_zone() {
    let zone = parse_zone("europe-west1-b").unwrap();
    assert_eq!(zone, "europe-west1-b");
}

#[test]
fn rejects_empty_zone() {
    assert!(parse_zone("").is_err());
    assert!(parse_zone("projects/123456/zones/").is_err());
}

#[test]
fn zone_ignores_surrounding_white_space() {
    assert_eq!(parse_zone(" \tzones/a-b \u{3000}\n").unwrap(), "a-b");
    assert_eq!(parse_zone("zones/ a").unwrap(), " a");
    let raw = " zones/ \n";
    assert_eq!(parse_zone(raw), Err(InvalidZone { raw: raw.to_string() }));
}

#[test]
fn zone_of_a_trimmed_value_is_the_same() {
    for raw in [" zones/a \n", "a", " zones/ ", "", "\tx/ y"] {
        assert_eq!(parse_zone(trim(raw)).ok(), parse_zone(raw).ok());
    }
}

#[test]
fn white_space_is_that_of_unicode() {
    for c in '\0'..=char::MAX {
        assert_eq!(white_space(c), c.is_whitespace());
    }
}

#[test]
fn pieces_of_text_are_those_of_std() {
    for s in ["", " ", "a", " é/b \u{a0}", "//", "a/", "/a", "x y/\u{2003}z\r\n", "日本/語"] {
        assert_eq!(trim(s), s.trim());
        assert_eq!(last_segment(s, '/'), s.rsplit('/').next().unwrap());
    }
}

#[test]
fn metadata_lives_below_the_base_url() {
    assert_eq!(
        metadata_url("instance/zone"),
        "http://metadata.google.internal/computeMetadata/v1/instance/zone"
    );
    assert_eq!(MetadataKey::ProjectId.path(), "project/project-id");
    assert_eq!(MetadataKey::Zone.path(), "instance/zone");
    assert_eq!(MetadataKey::InstanceName.path(), "instance/name");
    assert_eq!(MetadataKey::Zone.context(), "failed to read zone from metadata");
}

#[test]
fn metadata_values_are_trimmed() {
    assert_eq!(metadata_value(200, Some(" vm-1\n".to_string())), Ok("vm-1".to_string()));
    assert_eq!(metadata_value(299, None), Ok(String::new()));
}

#[test]
fn metadata_failures_keep_status_and_body() {
    for status in [199, 300, 404, 0] {
        assert_eq!(
            metadata_value(status, Some(" no\n".to_string())),
            Err(MetadataError { status, body: " no\n".to_string() })
        );
    }
    assert_eq!(metadata_value(503, None), Err(MetadataError { status: 503, body: String::new() }));
}

fn probe(replies: Vec<Result<&str, u8>>) -> (Vec<MetadataKey>, Option<Result<GceIdentity, IdentityError<u8>>>) {
    let mut keys = Vec::new();
    let mut probe = IdentityProbe::start();
    for reply in replies {
        keys.push(probe.key());
        match probe.advance(reply.map(|s| s.to_string())) {
            ProbeStep::Ask(next) => probe = next,
            ProbeStep::Done(res) => return (keys, Some(res)),
        }
    }
    (keys, None)
}

#[test]
fn identity_is_read_value_by_value() {
    let (keys, res) = probe(vec![Ok("proj"), Ok("projects/1/zones/z-a"), Ok("vm")]);
    assert_eq!(keys, vec![MetadataKey::ProjectId, MetadataKey::Zone, MetadataKey::InstanceName]);
    assert_eq!(
        res.unwrap().unwrap(),
        GceIdentity {
            project_id: "proj".to_string(),
            zone: "z-a".to_string(),
            instance_name: "vm".to_string(),
        }
    );
}

#[test]
fn zone_is_judged_after_all_values_were_read() {
    let (keys, res) = probe(vec![Ok("proj"), Ok("zones/"), Ok("vm")]);
    assert_eq!(keys.len(), 3);
    match res.unwrap() {
        Err(IdentityError::InvalidZone(invalid)) => assert_eq!(invalid.raw, "zones/"),
        other => panic!("{other:?}"),
    }
}

#[test]
fn unreadable_value_ends_the_probe() {
    let (keys, res) = probe(vec![Ok("proj"), Err(7), Ok("vm")]);
    assert_eq!(keys.len(), 2);
    match res.unwrap() {
        Err(IdentityError::Unreadable { key, cause }) => {
            assert_eq!((key, cause), (MetadataKey::Zone, 7));
        }
        other => panic!("{other:?}"),
    }
}

#[test]
fn idle_machine_is_suspended_with_its_disks() {
    let event = IdleEvent {
        request_id: RequestId { bits: 0x67e55044_10b1_426f_9247_bb680e5fe0c8 },
        last_best_block_number: 1,
        idle_timer: Duration::from_secs(1),
        last_seen_elapsed_secs: 0,
        triggered_elapsed_secs: 1,
    };
    let order = event.suspend_order();
    assert_eq!(order, SuspendOrder { discard_local_ssd: false, request_id: event.request_id });

    let identity = GceIdentity {
        project_id: "proj".to_string(),
        zone: "z-a".to_string(),
        instance_name: "vm".to_string(),
    };
    assert_eq!(
        order.request(&identity),
        SuspendRequest {
            project: "proj".to_string(),
            zone: "z-a".to_string(),
            instance: "vm".to_string(),
            request_id: "67e55044-10b1-426f-9247-bb680e5fe0c8".to_string(),
            discard_local_ssd: false,
        }
    );
}

#[test]
fn identifiers_have_distinct_texts() {
    let low = RequestId { bits: 1 };
    let high = RequestId { bits: 1 << 127 };
    assert_eq!(low.to_text(), "00000000-0000-0000-0000-000000000001");
    assert_eq!(high.to_text(), "80000000-0000-0000-0000-000000000000");
    let random = RequestId::new_v4().to_text();
    assert_eq!(random.len(), 36);
    assert_eq!(&random[14..15], "4");
    assert!(["8", "9", "a", "b"].contains(&&random[19..20]));
}

#[test]
fn errors_are_told_in_words() {
    let invalid = parse_zone("a/\"\n/").unwrap_err();
    assert_eq!(invalid.message(), "invalid metadata zone value: \"a/\\\"\\n/\"");
    assert_eq!(invalid_zone_message("x"), "invalid metadata zone value: x");

    let failed = metadata_value(404, Some("nope".to_string())).unwrap_err();
    assert_eq!(
        failed.message(),
        "metadata request failed (status=404 Not Found): nope"
    );
    assert_eq!(failed.message_with("x"), "metadata request failed (status=x): nope");
    for status in [100, 302, 599, 999] {
        let failed = metadata_value(status, None).unwrap_err();
        let words = reqwest::StatusCode::from_u16(status).unwrap();
        assert_eq!(failed.message(), format!("metadata request failed (status={words}): "));
    }
    assert_eq!(SUSPEND_FAILED, "beth-idle: suspend_self failed");

    assert_eq!(query_failure("http://m/a"), "failed to query GCE metadata \"http://m/a\"");
    assert_eq!(query_failure_message("u"), "failed to query GCE metadata u");
}
