use yukumo::download::{last_path_segment_of, GetAction, GetEvent, GetMachine};
use yukumo::error::ApiError;
use yukumo::store::FileRow;

#[test]
fn last_segment_stops_at_query_and_fragment() {
    assert_eq!(last_path_segment_of("https://h.example/a/b.txt?q=1"), "b.txt");
    assert_eq!(last_path_segment_of("https://h.example/a/b.txt#frag"), "b.txt");
    assert_eq!(last_path_segment_of("https://h.example/a/b.txt"), "b.txt");
    assert_eq!(last_path_segment_of("no-slash"), "no-slash");
    assert_eq!(last_path_segment_of("dir/"), "");
    assert_eq!(last_path_segment_of(""), "");
}

fn stored_record() -> FileRow {
    FileRow {
        file_name: "original-name.bin".to_string(),
        file_url: "https://store/obj/original-name.bin".to_string(),
        space_id: "S".to_string(),
        block_id: "B".to_string(),
        origin_file_path: "/home/user/original-name.bin".to_string(),
        created_at: 1_700_000_000_000,
    }
}

#[test]
fn download_saves_under_the_signed_urls_name() {
    let row = stored_record();
    let (mut g, a0) = GetMachine::start(
        row.file_url.clone(),
        row.block_id.clone(),
        row.space_id.clone(),
        "filetok".to_string(),
        None,
    );
    let request = match a0 {
        GetAction::RequestUrls { request } => request,
        other => panic!("expected RequestUrls, got {other:?}"),
    };
    assert_eq!(request.urls.len(), 1);
    assert_eq!(request.urls[0].url, row.file_url);
    assert!(!request.urls[0].use_s3_url);
    assert_eq!(request.urls[0].permission_record.table, "block");
    assert_eq!(request.urls[0].permission_record.id, "B");
    assert_eq!(request.urls[0].permission_record.space_id, "S");

    let a1 = g.step(GetEvent::Urls {
        signed_urls: vec!["https://signed.example/x/y?token=t".to_string()],
    });
    match a1 {
        GetAction::Fetch { url, cookie } => {
            assert_eq!(url, "https://signed.example/x/y?token=t");
            assert_eq!(cookie, "file_token=filetok");
        }
        other => panic!("expected Fetch, got {other:?}"),
    }

    // The response ended at a URL whose last segment differs from the
    // stored file name; the derived destination follows the URL.
    let a2 = g.step(GetEvent::Fetched {
        final_url: "https://real.example/bucket/other_name.txt?X-Sig=1".to_string(),
    });
    match a2 {
        GetAction::Save { file_name } => {
            assert_eq!(file_name, "other_name.txt");
            assert_ne!(file_name, stored_record().file_name);
        }
        other => panic!("expected Save, got {other:?}"),
    }

    let a3 = g.step(GetEvent::Saved);
    assert_eq!(a3, GetAction::Done);
}

#[test]
fn explicit_output_name_wins() {
    let (mut g, _) = GetMachine::start(
        "https://store/obj".to_string(),
        "B".to_string(),
        "S".to_string(),
        "filetok".to_string(),
        Some("chosen.bin".to_string()),
    );
    let _fetch = g.step(GetEvent::Urls { signed_urls: vec!["https://signed/x/y".to_string()] });
    let save = g.step(GetEvent::Fetched { final_url: "https://real/bucket/z.dat".to_string() });
    match save {
        GetAction::Save { file_name } => assert_eq!(file_name, "chosen.bin"),
        other => panic!("expected Save, got {other:?}"),
    }
}

#[test]
fn no_signed_urls_means_done() {
    let (mut g, _) = GetMachine::start(
        "https://store/obj".to_string(),
        "B".to_string(),
        "S".to_string(),
        "filetok".to_string(),
        None,
    );
    let a = g.step(GetEvent::Urls { signed_urls: vec![] });
    assert_eq!(a, GetAction::Done);
}

#[test]
fn several_signed_urls_are_fetched_in_order() {
    let (mut g, _) = GetMachine::start(
        "https://store/obj".to_string(),
        "B".to_string(),
        "S".to_string(),
        "filetok".to_string(),
        None,
    );
    let first = g.step(GetEvent::Urls {
        signed_urls: vec!["https://signed/1".to_string(), "https://signed/2".to_string()],
    });
    match first {
        GetAction::Fetch { url, .. } => assert_eq!(url, "https://signed/1"),
        other => panic!("expected Fetch, got {other:?}"),
    }
    let _save = g.step(GetEvent::Fetched { final_url: "https://real/1".to_string() });
    let second = g.step(GetEvent::Saved);
    match second {
        GetAction::Fetch { url, .. } => assert_eq!(url, "https://signed/2"),
        other => panic!("expected Fetch, got {other:?}"),
    }
    let _save = g.step(GetEvent::Fetched { final_url: "https://real/2".to_string() });
    assert_eq!(g.step(GetEvent::Saved), GetAction::Done);
}

#[test]
fn fetch_failure_halts() {
    let (mut g, _) = GetMachine::start(
        "https://store/obj".to_string(),
        "B".to_string(),
        "S".to_string(),
        "filetok".to_string(),
        None,
    );
    let _fetch = g.step(GetEvent::Urls { signed_urls: vec!["https://signed/x".to_string()] });
    let failed = g.step(GetEvent::StepFailed {
        error: ApiError::TransportFailure { detail: "connection reset".to_string() },
    });
    assert_eq!(
        failed,
        GetAction::Fail {
            error: ApiError::TransportFailure { detail: "connection reset".to_string() }
        }
    );
}
