use photography_mind::args::Args;
use photography_mind::config::Config;
use photography_mind::responses::ToolError;
use photography_mind::server::PhotoMindServer;
use photography_mind::store::Store;
use photography_mind::sync::FileLoad;

fn fresh_server() -> PhotoMindServer {
    let cfg = Config::assemble(None, None, None, None, None, None, None, None, None);
    PhotoMindServer::new(cfg, Store::new())
}

fn text_args(pairs: &[(&str, &str)]) -> Args {
    let mut args = Args::new();
    for (k, v) in pairs {
        args.add_text(k, v);
    }
    args
}

fn sync_args(dry_run: bool) -> Args {
    let mut args = Args::new();
    args.add_text("json_path", "/exports/data.json");
    args.add_flag("dry_run", dry_run);
    args
}

const GALLERIES: &str =
    r#"{"galleries":[{"id":7,"name":"Addie Knox","url":"https://gallery.example/7"}]}"#;

#[test]
fn gallery_sync_dry_run_changes_nothing() {
    let mut server = fresh_server();
    server
        .handle_create_family(&text_args(&[("last_name", "Knox"), ("delivery_email", "k@x")]))
        .unwrap();
    let before = server.db.families.clone();

    let file = FileLoad::Loaded(GALLERIES.to_string());
    let report = server
        .handle_sync_shootproof_galleries(&sync_args(true), &file)
        .unwrap();
    assert!(report.dry_run);
    assert_eq!(report.total_galleries, 1);
    assert_eq!(report.matched.len(), 1);
    assert_eq!(report.unmatched.len(), 0);
    assert_eq!(report.updated, 0);
    assert_eq!(report.matched[0].family_id, "family:knox");
    assert_eq!(report.matched[0].existing_sp_id, None);
    assert_eq!(server.db.families, before);
}

#[test]
fn gallery_sync_live_run_writes_once() {
    let mut server = fresh_server();
    server
        .handle_create_family(&text_args(&[("last_name", "Knox"), ("delivery_email", "k@x")]))
        .unwrap();
    let file = FileLoad::Loaded(GALLERIES.to_string());

    let first = server
        .handle_sync_shootproof_galleries(&sync_args(false), &file)
        .unwrap();
    assert_eq!(first.updated, 1);
    assert_eq!(server.db.families[0].shootproof_gallery_id, Some(7));
    assert_eq!(
        server.db.families[0].shootproof_url,
        Some("https://gallery.example/7".to_string())
    );

    let second = server
        .handle_sync_shootproof_galleries(&sync_args(false), &file)
        .unwrap();
    assert_eq!(second.matched.len(), 1);
    assert_eq!(second.updated, 0);
    assert_eq!(second.matched[0].existing_sp_id, Some(7));
}

#[test]
fn gallery_sync_reports_unmatched() {
    let mut server = fresh_server();
    let file = FileLoad::Loaded(GALLERIES.to_string());
    let report = server
        .handle_sync_shootproof_galleries(&sync_args(true), &file)
        .unwrap();
    assert_eq!(report.matched.len(), 0);
    assert_eq!(report.unmatched.len(), 1);
    assert_eq!(report.unmatched[0].attempted_family_id, "family:knox");
}

#[test]
fn gallery_sync_rejects_wrong_shape() {
    let mut server = fresh_server();
    let file = FileLoad::Loaded(r#"{"orders":[]}"#.to_string());
    match server.handle_sync_shootproof_galleries(&sync_args(true), &file) {
        Err(ToolError::InvalidParams(m)) => {
            assert_eq!(m, "Expected 'galleries' array in JSON");
        }
        other => panic!("expected the shape refusal, got {:?}", other),
    }
}

#[test]
fn gallery_sync_rejects_non_array_member() {
    let mut server = fresh_server();
    let file = FileLoad::Loaded(r#"{"galleries": 5}"#.to_string());
    match server.handle_sync_shootproof_galleries(&sync_args(true), &file) {
        Err(ToolError::InvalidParams(m)) => {
            assert_eq!(m, "Expected 'galleries' array in JSON");
        }
        other => panic!("expected the shape refusal, got {:?}", other),
    }
}

#[test]
fn gallery_sync_rejects_bad_json() {
    let mut server = fresh_server();
    let file = FileLoad::Loaded("not json".to_string());
    match server.handle_sync_shootproof_galleries(&sync_args(true), &file) {
        Err(ToolError::InvalidParams(m)) => {
            assert!(m.starts_with("Failed to parse JSON: "));
        }
        other => panic!("expected the parse refusal, got {:?}", other),
    }
}

#[test]
fn gallery_sync_reports_read_failures() {
    let mut server = fresh_server();
    let file = FileLoad::Failed("permission denied".to_string());
    match server.handle_sync_shootproof_galleries(&sync_args(true), &file) {
        Err(ToolError::Internal(m)) => {
            assert_eq!(m, "Failed to read file /exports/data.json: permission denied");
        }
        other => panic!("expected the read failure, got {:?}", other),
    }
}

#[test]
fn order_sync_unmatched_keeps_hyphens() {
    let mut server = fresh_server();
    let file = FileLoad::Loaded(
        r#"{"orders":[{"customer_email":"c@x","customer_name":"Casey","event_name":"Lastname-Unknown","event_id":9,"grand_total":12.5}]}"#
            .to_string(),
    );
    let report = server
        .handle_sync_shootproof_orders(&sync_args(true), &file)
        .unwrap();
    assert_eq!(report.matched.len(), 0);
    assert_eq!(report.unmatched.len(), 1);
    assert_eq!(report.unmatched[0].attempted_family_id, "family:lastname-unknown");
    assert_eq!(report.unmatched[0].amount_text, "12.5");
}

#[test]
fn order_sync_fills_missing_email_only() {
    let mut server = fresh_server();
    server
        .handle_create_family(&text_args(&[("last_name", "Knox"), ("delivery_email", "k@x")]))
        .unwrap();
    // a second family without an email, seeded directly
    server.db.add_family(photography_mind::models::FamilyRec {
        id: "family:reed".to_string(),
        name: Some("Family Reed".to_string()),
        first_name: Some("Family".to_string()),
        last_name: Some("Reed".to_string()),
        delivery_email: None,
        notes: None,
        shootproof_gallery_id: None,
        shootproof_url: None,
        created_at: 0,
    });
    let file = FileLoad::Loaded(
        r#"{"orders":[
            {"customer_email":"new@x","customer_name":"K","event_name":"Addie Knox","event_id":1,"grand_total":10},
            {"customer_email":"r@x","customer_name":"R","event_name":"Riley Reed","event_id":2,"grand_total":20}
        ]}"#
            .to_string(),
    );
    let report = server
        .handle_sync_shootproof_orders(&sync_args(false), &file)
        .unwrap();
    assert_eq!(report.matched.len(), 2);
    assert_eq!(report.emails_updated, 1);
    assert!(!report.matched[0].will_update_email);
    assert!(report.matched[1].will_update_email);
    // the present email was preserved, the missing one filled
    assert_eq!(server.db.families[0].delivery_email, Some("k@x".to_string()));
    assert_eq!(server.db.families[1].delivery_email, Some("r@x".to_string()));
}

#[test]
fn order_sync_dry_run_changes_nothing() {
    let mut server = fresh_server();
    server.db.add_family(photography_mind::models::FamilyRec {
        id: "family:reed".to_string(),
        name: Some("Family Reed".to_string()),
        first_name: Some("Family".to_string()),
        last_name: Some("Reed".to_string()),
        delivery_email: None,
        notes: None,
        shootproof_gallery_id: None,
        shootproof_url: None,
        created_at: 0,
    });
    let before = server.db.families.clone();
    let file = FileLoad::Loaded(
        r#"{"orders":[{"customer_email":"r@x","customer_name":"R","event_name":"Riley Reed","event_id":2,"grand_total":20}]}"#
            .to_string(),
    );
    let report = server
        .handle_sync_shootproof_orders(&sync_args(true), &file)
        .unwrap();
    assert_eq!(report.emails_updated, 0);
    assert!(report.matched[0].will_update_email);
    assert_eq!(server.db.families, before);
}

#[test]
fn order_sync_ignores_empty_customer_email() {
    let mut server = fresh_server();
    server.db.add_family(photography_mind::models::FamilyRec {
        id: "family:reed".to_string(),
        name: Some("Family Reed".to_string()),
        first_name: Some("Family".to_string()),
        last_name: Some("Reed".to_string()),
        delivery_email: None,
        notes: None,
        shootproof_gallery_id: None,
        shootproof_url: None,
        created_at: 0,
    });
    let file = FileLoad::Loaded(
        r#"{"orders":[{"customer_email":"","customer_name":"R","event_name":"Riley Reed","event_id":2,"grand_total":20}]}"#
            .to_string(),
    );
    let report = server
        .handle_sync_shootproof_orders(&sync_args(false), &file)
        .unwrap();
    assert_eq!(report.emails_updated, 0);
    assert!(!report.matched[0].will_update_email);
    assert_eq!(server.db.families[0].delivery_email, None);
}

#[test]
fn sync_requires_json_path() {
    let mut server = fresh_server();
    let file = FileLoad::Loaded(GALLERIES.to_string());
    match server.handle_sync_shootproof_galleries(&Args::new(), &file) {
        Err(ToolError::InvalidParams(m)) => {
            assert_eq!(m, "Missing required parameter: json_path");
        }
        other => panic!("expected invalid params, got {:?}", other),
    }
}
