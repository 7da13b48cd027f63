use yukumo::client::{
    file_cookie, interpret_status, page_data_request, page_chunk_request, signed_file_urls_request,
    upload_file_url_request, Notion, DEFAULT_USER_AGENT, NOTION_API_BASE,
};
use yukumo::error::ApiError;
use yukumo::put::FileMeta;
use yukumo::types::{page_identity, PageDataResponse};

#[test]
fn user_agent_defaults_to_a_browser_string() {
    let n = Notion::new("tok".to_string(), None);
    assert_eq!(n.user_agent(), DEFAULT_USER_AGENT);
    assert!(n.user_agent().starts_with("Mozilla/5.0"));
}

#[test]
fn user_agent_override_wins() {
    let n = Notion::new("tok".to_string(), Some("custom-agent/1".to_string()));
    assert_eq!(n.user_agent(), "custom-agent/1");
}

#[test]
fn cookies_carry_the_tokens() {
    let n = Notion::new("tok123".to_string(), None);
    assert_eq!(n.session_cookie(), "token_v2=tok123");
    assert_eq!(file_cookie("ft"), "file_token=ft");
}

#[test]
fn api_base_is_fixed() {
    assert_eq!(NOTION_API_BASE, "https://www.notion.so/api/v3");
}

#[test]
fn success_statuses_hand_the_body_on() {
    assert_eq!(interpret_status(200, "{}".to_string()), Ok("{}".to_string()));
    assert_eq!(interpret_status(204, "".to_string()), Ok("".to_string()));
    assert_eq!(interpret_status(299, "x".to_string()), Ok("x".to_string()));
}

#[test]
fn other_statuses_are_rejections_with_the_body_text() {
    assert_eq!(
        interpret_status(404, "not found".to_string()),
        Err(ApiError::RemoteRejected { status: 404, body: "not found".to_string() })
    );
    assert_eq!(
        interpret_status(199, "odd".to_string()),
        Err(ApiError::RemoteRejected { status: 199, body: "odd".to_string() })
    );
    assert_eq!(
        interpret_status(500, "boom".to_string()),
        Err(ApiError::RemoteRejected { status: 500, body: "boom".to_string() })
    );
}

#[test]
fn page_data_request_is_a_block_space_lookup() {
    let r = page_data_request("2131b10c-ebf6-4938-a127-7089ff02dbe4");
    assert_eq!(r.request_type, "block-space");
    assert_eq!(r.block_id, "2131b10c-ebf6-4938-a127-7089ff02dbe4");
    assert_eq!(r.name, "page");
    assert!(!r.save_parent);
    assert!(!r.show_move_to);
}

#[test]
fn page_chunk_request_carries_the_window() {
    let r = page_chunk_request("pid", 0, 50, None);
    assert_eq!(r.page_id, "pid");
    assert_eq!(r.chunk_number, 0);
    assert_eq!(r.limit, 50);
    assert!(r.cursor.is_none());
    assert!(!r.vertical_columns);
}

#[test]
fn upload_request_targets_the_secure_bucket() {
    let r = upload_file_url_request("notes.txt", "text/plain", 2048, "B", "S");
    assert_eq!(r.bucket, "secure");
    assert_eq!(r.name, "notes.txt");
    assert_eq!(r.content_type, "text/plain");
    assert_eq!(r.content_length, 2048);
    assert_eq!(r.record.id, "B");
    assert_eq!(r.record.space_id, "S");
    assert_eq!(r.record.table, "block");
}

#[test]
fn signed_url_request_scopes_each_url_to_its_block() {
    let r = signed_file_urls_request(vec![
        ("https://store/1".to_string(), "B1".to_string(), "S".to_string()),
        ("https://store/2".to_string(), "B2".to_string(), "S".to_string()),
    ]);
    assert_eq!(r.urls.len(), 2);
    assert_eq!(r.urls[0].url, "https://store/1");
    assert_eq!(r.urls[0].permission_record.id, "B1");
    assert_eq!(r.urls[1].url, "https://store/2");
    assert_eq!(r.urls[1].permission_record.id, "B2");
    assert!(r.urls.iter().all(|u| !u.use_s3_url));
    assert!(r.urls.iter().all(|u| u.permission_record.table == "block"));
    assert!(r.urls.iter().all(|u| u.permission_record.space_id == "S"));
}

#[test]
fn page_identity_keeps_the_owner_distinction() {
    let base = PageDataResponse {
        beta_enabled: false,
        can_join_space: false,
        owner_user_id: None,
        page_id: "P".to_string(),
        public_access_role: "none".to_string(),
        require_login: false,
        space_domain: "d".to_string(),
        space_id: "S".to_string(),
        space_name: "n".to_string(),
        user_has_explicit_access: true,
    };
    let anon = page_identity(&base);
    assert_eq!(anon.owner_user_id, None);
    assert_eq!(anon.page_id, "P");
    assert_eq!(anon.space_id, "S");

    let mut owned = base;
    owned.owner_user_id = Some("".to_string());
    let with_empty_owner = page_identity(&owned);
    assert_eq!(with_empty_owner.owner_user_id, Some("".to_string()));
    assert_ne!(with_empty_owner.owner_user_id, None);
}

#[test]
fn mime_is_guessed_from_the_extension() {
    assert_eq!(FileMeta::for_file("notes.txt".to_string(), 1).mime, "text/plain");
    assert_eq!(FileMeta::for_file("photo.png".to_string(), 1).mime, "image/png");
    assert_eq!(FileMeta::for_file("archive.tar.gz".to_string(), 1).mime, "application/gzip");
    assert_eq!(FileMeta::for_file("unknown.zzzz".to_string(), 1).mime, "text/plain");
}
