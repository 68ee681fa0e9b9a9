use photography_mind::args::Args;
use photography_mind::catalog::{list_tools, resolve_tool, ToolName};
use photography_mind::config::Config;
use photography_mind::models::{CompetitionRec, FamilyCompetition, FamilyRec, FamilyShoot};
use photography_mind::router::{ErrorCode, Router, ToolOutput};
use photography_mind::server::PhotoMindServer;
use photography_mind::store::Store;
use photography_mind::sync::FileLoad;

fn fresh_server() -> PhotoMindServer {
    let cfg = Config::assemble(None, None, None, None, None, None, None, None, None);
    PhotoMindServer::new(cfg, Store::new())
}

fn text_args(pairs: &[(&str, &str)]) -> Args {
    let mut args = Args::new();
    for (k, v) in pairs {
        args.add_text(k, v);
    }
    args
}

#[test]
fn catalog_lists_twenty_tools_in_order() {
    let tools = list_tools();
    let names: Vec<&str> = tools.iter().map(|t| t.name.as_str()).collect();
    assert_eq!(
        names,
        vec![
            "health",
            "status",
            "get_contact",
            "find_skater",
            "get_family",
            "mark_gallery_sent",
            "list_pending_galleries",
            "competition_status",
            "create_shoot",
            "mark_shoot_sent",
            "list_shoots",
            "create_family",
            "link_family_shoot",
            "record_purchase",
            "list_pending_shoot_galleries",
            "shoot_status",
            "get_shoot",
            "list_families",
            "sync_shootproof_galleries",
            "sync_shootproof_orders",
        ]
    );
    assert_eq!(tools[11].input_schema.required, vec!["last_name", "delivery_email"]);
    assert_eq!(tools[13].input_schema.required, vec!["last_name", "amount", "shoot_name"]);
    let names = |i: usize| {
        tools[i].input_schema.properties.iter().map(|p| p.name.as_str()).collect::<Vec<_>>()
    };
    assert_eq!(names(11), vec!["last_name", "delivery_email", "notes"]);
    assert_eq!(names(8), vec!["name", "shoot_type", "date", "location", "notes"]);
    assert_eq!(tools[13].input_schema.properties[1].json_type, "number");
    assert_eq!(tools[18].input_schema.properties[1].json_type, "boolean");
}

#[test]
fn resolve_tool_knows_every_name_and_no_other() {
    assert_eq!(resolve_tool("health"), Some(ToolName::Health));
    assert_eq!(resolve_tool("sync_shootproof_orders"), Some(ToolName::SyncShootproofOrders));
    assert_eq!(resolve_tool("create_family"), Some(ToolName::CreateFamily));
    assert_eq!(resolve_tool("no_such_tool"), None);
    assert_eq!(resolve_tool(""), None);
}

#[test]
fn every_catalog_name_resolves() {
    for tool in list_tools() {
        assert!(resolve_tool(tool.name.as_str()).is_some());
    }
}

#[test]
fn router_refuses_unknown_tools() {
    let mut router = Router(fresh_server());
    let file = FileLoad::Failed(String::new());
    match router.call_tool("no_such_tool", &Args::new(), true, &file) {
        Err(e) => {
            assert_eq!(e.code, ErrorCode::MethodNotFound);
            assert_eq!(e.message, "Unknown tool: no_such_tool");
        }
        other => panic!("expected a refusal, got {:?}", other),
    }
}

#[test]
fn router_dispatches_and_maps_errors() {
    let mut router = Router(fresh_server());
    let file = FileLoad::Failed(String::new());
    match router.call_tool("health", &Args::new(), true, &file) {
        Ok(ToolOutput::Health(h)) => assert!(h.db),
        other => panic!("expected the health payload, got {:?}", other),
    }
    match router.call_tool("create_family", &Args::new(), true, &file) {
        Err(e) => {
            assert_eq!(e.code, ErrorCode::InvalidParams);
            assert_eq!(e.message, "Missing required parameter: last_name");
        }
        other => panic!("expected invalid params, got {:?}", other),
    }
    match router.call_tool(
        "create_family",
        &text_args(&[("last_name", "Knox"), ("delivery_email", "k@x")]),
        true,
        &file,
    ) {
        Ok(ToolOutput::CreateFamily(resp)) => assert_eq!(resp.family_id, "family:knox"),
        other => panic!("expected the created family, got {:?}", other),
    }
}

fn seeded_family(id: &str, last: &str, email: Option<&str>) -> FamilyRec {
    FamilyRec {
        id: id.to_string(),
        name: Some(format!("Family {}", last)),
        first_name: Some("Family".to_string()),
        last_name: Some(last.to_string()),
        delivery_email: email.map(|e| e.to_string()),
        notes: None,
        shootproof_gallery_id: None,
        shootproof_url: None,
        created_at: 0,
    }
}

#[test]
fn list_families_sorts_and_projects() {
    let mut server = fresh_server();
    server.db.add_family(seeded_family("family:young", "Young", Some("y@x")));
    server.db.add_family(seeded_family("family:adams", "Adams", None));
    let all = server.handle_list_families(&Args::new()).unwrap();
    assert_eq!(all.count, 2);
    assert_eq!(all.search, None);
    assert_eq!(all.families[0].name, "Adams");
    assert_eq!(all.families[1].name, "Young");
    let filtered = server
        .handle_list_families(&text_args(&[("search", "you")]))
        .unwrap();
    assert_eq!(filtered.count, 1);
    assert_eq!(filtered.families[0].name, "Young");
    assert_eq!(filtered.families[0].email, Some("y@x".to_string()));
}

#[test]
fn pending_shoot_galleries_filter_open_statuses() {
    let mut server = fresh_server();
    server.db.add_family(seeded_family("family:young", "Young", Some("y@x")));
    server.db.add_family(seeded_family("family:adams", "Adams", None));
    server
        .handle_create_shoot(&text_args(&[("name", "Winter"), ("shoot_type", "portrait")]))
        .unwrap();
    let edge = |eid: &str, fam: &str, status: &str| FamilyShoot {
        id: eid.to_string(),
        family: fam.to_string(),
        out: "shoot:1".to_string(),
        gallery_status: status.to_string(),
        sent_date: None,
        purchase_amount: None,
        purchase_date: None,
        created_at: 0,
    };
    server.db.add_family_shoot(edge("family_shoot:a", "family:young", "pending"));
    server.db.add_family_shoot(edge("family_shoot:b", "family:adams", "culling"));
    server.db.add_family_shoot(edge("family_shoot:c", "family:young", "sent"));
    let pending = server
        .handle_list_pending_shoot_galleries(&text_args(&[("shoot_name", "winter")]))
        .unwrap();
    assert_eq!(pending.subject, "winter");
    assert_eq!(pending.pending_count, 2);
    assert_eq!(pending.families[0].family, Some("Adams".to_string()));
    assert_eq!(pending.families[0].gallery_status, "culling");
    assert_eq!(pending.families[1].family, Some("Young".to_string()));
    assert_eq!(pending.families[1].email, Some("y@x".to_string()));
}

#[test]
fn competition_status_buckets_missing_as_unknown() {
    let mut server = fresh_server();
    server.db.add_competition(CompetitionRec {
        id: "competition:reg".to_string(),
        name: "Regionals".to_string(),
    });
    let edge = |eid: &str, fam: &str, status: Option<&str>| FamilyCompetition {
        id: eid.to_string(),
        family: fam.to_string(),
        out: "competition:reg".to_string(),
        gallery_status: status.map(|s| s.to_string()),
        sent_date: None,
    };
    server.db.add_family_competition(edge("fc:1", "family:a", Some("pending")));
    server.db.add_family_competition(edge("fc:2", "family:b", None));
    server.db.add_family_competition(edge("fc:3", "family:c", Some("pending")));
    let status = server
        .handle_competition_status(&text_args(&[("competition_name", "regional")]))
        .unwrap();
    assert_eq!(status.competition, "regional");
    assert_eq!(status.total_families, 3);
    assert_eq!(status.status_breakdown.len(), 2);
    assert_eq!(status.status_breakdown[0].status, "pending");
    assert_eq!(status.status_breakdown[0].count, 2);
    assert_eq!(status.status_breakdown[1].status, "unknown");
    assert_eq!(status.status_breakdown[1].count, 1);
}

#[test]
fn empty_store_lists_and_counts_nothing() {
    let mut server = fresh_server();
    let shoots = server.handle_list_shoots();
    assert_eq!(shoots.count, 0);
    assert!(shoots.shoots.is_empty());
    let families = server.handle_list_families(&Args::new()).unwrap();
    assert_eq!(families.count, 0);
    let status = server
        .handle_competition_status(&text_args(&[("competition_name", "anything")]))
        .unwrap();
    assert_eq!(status.total_families, 0);
    assert!(status.status_breakdown.is_empty());
    let shoot_status = server
        .handle_shoot_status(&text_args(&[("shoot_name", "anything")]))
        .unwrap();
    assert_eq!(shoot_status.total_revenue_cents, 0);
    let counts = server.handle_status();
    assert_eq!(counts.family, 0);
    assert_eq!(counts.event, 0);
}

#[test]
fn shoots_without_dates_sort_after_dated_ones() {
    let mut server = fresh_server();
    server.db.add_shoot(photography_mind::models::Shoot {
        id: "shoot:n".to_string(),
        name: "Undated".to_string(),
        shoot_type: "portrait".to_string(),
        shoot_date: None,
        location: None,
        notes: None,
    });
    server
        .handle_create_shoot(&text_args(&[
            ("name", "Winter"),
            ("shoot_type", "portrait"),
            ("date", "2024-01-15"),
        ]))
        .unwrap();
    let listing = server.handle_list_shoots();
    assert_eq!(listing.shoots[0].name, "Winter");
    assert_eq!(listing.shoots[1].name, "Undated");
}

#[test]
fn list_shoots_orders_newest_first() {
    let mut server = fresh_server();
    server
        .handle_create_shoot(&text_args(&[
            ("name", "Autumn"),
            ("shoot_type", "portrait"),
            ("date", "2023-10-01"),
        ]))
        .unwrap();
    server
        .handle_create_shoot(&text_args(&[
            ("name", "Winter"),
            ("shoot_type", "portrait"),
            ("date", "2024-01-15"),
        ]))
        .unwrap();
    server
        .handle_create_shoot(&text_args(&[
            ("name", "Spring"),
            ("shoot_type", "portrait"),
            ("date", "2024-01-15"),
        ]))
        .unwrap();
    let listing = server.handle_list_shoots();
    assert_eq!(listing.count, 3);
    assert_eq!(listing.shoots[0].name, "Spring");
    assert_eq!(listing.shoots[1].name, "Winter");
    assert_eq!(listing.shoots[2].name, "Autumn");
}
