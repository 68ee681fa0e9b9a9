use photography_mind::args::Args;
use photography_mind::config::Config;
use photography_mind::models::{CompetitionRec, FamilyCompetition, SkaterRec};
use photography_mind::responses::{
    ContactResponse, FindSkaterResponse, GetFamilyResponse, GetShootResponse, LinkResponse,
    MarkSentResponse, RecordPurchaseResponse, ToolError,
};
use photography_mind::server::PhotoMindServer;
use photography_mind::store::Store;

fn fresh_server() -> PhotoMindServer {
    let cfg = Config::assemble(None, None, None, None, None, None, None, None, None);
    PhotoMindServer::new(cfg, Store::new())
}

fn text_args(pairs: &[(&str, &str)]) -> Args {
    let mut args = Args::new();
    for (k, v) in pairs {
        args.add_text(k, v);
    }
    args
}

#[test]
fn create_then_contact() {
    let mut server = fresh_server();
    let created = server
        .handle_create_family(&text_args(&[("last_name", "Knox"), ("delivery_email", "k@x")]))
        .unwrap();
    assert_eq!(created.family_id, "family:knox");
    assert_eq!(created.name, "Family Knox");
    assert_eq!(created.email, "k@x");

    match server.handle_get_contact(&text_args(&[("last_name", "KNOX")])).unwrap() {
        ContactResponse::Found { family_id, family, email } => {
            assert_eq!(family_id, "family:knox");
            assert_eq!(family, "Knox");
            assert_eq!(email, Some("k@x".to_string()));
        }
        other => panic!("expected the family to be found, got {:?}", other),
    }
}

#[test]
fn contact_reports_missing_family_with_derived_id() {
    let server = fresh_server();
    match server.handle_get_contact(&text_args(&[("last_name", "Nobody Here")])).unwrap() {
        ContactResponse::NotFound { message } => {
            assert_eq!(
                message,
                "No family found with last name: Nobody Here (ID: family:nobody_here)"
            );
        }
        other => panic!("expected not found, got {:?}", other),
    }
}

#[test]
fn create_family_is_idempotent_on_last_name() {
    let mut server = fresh_server();
    server
        .handle_create_family(&text_args(&[("last_name", "Knox"), ("delivery_email", "a@x")]))
        .unwrap();
    let before = server.db.families.len();
    server
        .handle_create_family(&text_args(&[
            ("last_name", "Knox"),
            ("delivery_email", "b@x"),
            ("notes", "updated"),
        ]))
        .unwrap();
    assert_eq!(server.db.families.len(), before);
    assert_eq!(server.db.families[0].delivery_email, Some("b@x".to_string()));
    assert_eq!(server.db.families[0].notes, Some("updated".to_string()));
}

#[test]
fn missing_arguments_are_refused() {
    let mut server = fresh_server();
    match server.handle_create_family(&text_args(&[("delivery_email", "k@x")])) {
        Err(ToolError::InvalidParams(m)) => {
            assert_eq!(m, "Missing required parameter: last_name");
        }
        other => panic!("expected invalid params, got {:?}", other),
    }
}

#[test]
fn sent_requires_link() {
    let mut server = fresh_server();
    server
        .handle_create_family(&text_args(&[("last_name", "Knox"), ("delivery_email", "k@x")]))
        .unwrap();
    server
        .handle_create_shoot(&text_args(&[("name", "Winter 2024"), ("shoot_type", "portrait")]))
        .unwrap();
    let edges_before = server.db.family_shoots.len();
    match server
        .handle_mark_shoot_sent(&text_args(&[("last_name", "Knox"), ("shoot_name", "winter")]))
        .unwrap()
    {
        MarkSentResponse::NoEdge { message, family_id, target_id } => {
            assert!(message.contains("No family_shoot edge exists"));
            assert_eq!(family_id, "family:knox");
            assert_eq!(target_id, "shoot:1");
        }
        other => panic!("expected the edge probe to refuse, got {:?}", other),
    }
    assert_eq!(server.db.family_shoots.len(), edges_before);
}

#[test]
fn link_then_sent_then_status() {
    let mut server = fresh_server();
    server
        .handle_create_family(&text_args(&[("last_name", "Knox"), ("delivery_email", "k@x")]))
        .unwrap();
    server
        .handle_create_shoot(&text_args(&[("name", "Winter 2024"), ("shoot_type", "portrait")]))
        .unwrap();

    let link_args = text_args(&[("last_name", "Knox"), ("shoot_name", "winter")]);
    match server.handle_link_family_shoot(&link_args).unwrap() {
        LinkResponse::Linked { message, .. } => {
            assert_eq!(message, "Linked Knox to shoot winter");
        }
        other => panic!("expected the link to succeed, got {:?}", other),
    }
    match server.handle_link_family_shoot(&link_args).unwrap() {
        LinkResponse::AlreadyLinked { existing_edge_id, .. } => {
            assert!(!existing_edge_id.is_empty());
        }
        other => panic!("expected the repeat link to be refused, got {:?}", other),
    }
    assert_eq!(server.db.family_shoots.len(), 1);

    match server
        .handle_mark_shoot_sent(&text_args(&[("last_name", "Knox"), ("shoot_name", "winter")]))
        .unwrap()
    {
        MarkSentResponse::Sent { message, .. } => {
            assert_eq!(message, "Marked shoot gallery as sent for Knox at winter");
        }
        other => panic!("expected the mark to succeed, got {:?}", other),
    }

    let status = server
        .handle_shoot_status(&text_args(&[("shoot_name", "winter")]))
        .unwrap();
    assert_eq!(status.total_families, 1);
    assert_eq!(status.status_breakdown.len(), 1);
    assert_eq!(status.status_breakdown[0].status, "sent");
    assert_eq!(status.status_breakdown[0].count, 1);
}

#[test]
fn purchase_revenue_aggregates() {
    let mut server = fresh_server();
    server
        .handle_create_family(&text_args(&[("last_name", "Knox"), ("delivery_email", "k@x")]))
        .unwrap();
    server
        .handle_create_shoot(&text_args(&[("name", "Winter 2024"), ("shoot_type", "portrait")]))
        .unwrap();
    server
        .handle_link_family_shoot(&text_args(&[("last_name", "Knox"), ("shoot_name", "winter")]))
        .unwrap();

    let mut args = Args::new();
    args.add_text("last_name", "Knox");
    args.add_text("shoot_name", "winter");
    args.add_cents("amount", 25000);
    match server.handle_record_purchase(&args).unwrap() {
        RecordPurchaseResponse::Recorded { message } => {
            assert_eq!(message, "Recorded $250.00 purchase for Knox at winter");
        }
        other => panic!("expected the purchase to be recorded, got {:?}", other),
    }

    let status = server
        .handle_shoot_status(&text_args(&[("shoot_name", "winter")]))
        .unwrap();
    assert_eq!(status.total_revenue_cents, 25000);
    assert_eq!(status.status_breakdown.len(), 1);
    assert_eq!(status.status_breakdown[0].status, "purchased");
    assert_eq!(status.status_breakdown[0].count, 1);
}

#[test]
fn purchase_without_edge_still_reports_success() {
    let mut server = fresh_server();
    server
        .handle_create_family(&text_args(&[("last_name", "Knox"), ("delivery_email", "k@x")]))
        .unwrap();
    server
        .handle_create_shoot(&text_args(&[("name", "Winter 2024"), ("shoot_type", "portrait")]))
        .unwrap();
    let mut args = Args::new();
    args.add_text("last_name", "Knox");
    args.add_text("shoot_name", "winter");
    args.add_cents("amount", 100);
    match server.handle_record_purchase(&args).unwrap() {
        RecordPurchaseResponse::Recorded { .. } => {}
        other => panic!("expected the divergent success, got {:?}", other),
    }
    let status = server
        .handle_shoot_status(&text_args(&[("shoot_name", "winter")]))
        .unwrap();
    assert_eq!(status.total_revenue_cents, 0);
}

#[test]
fn mark_gallery_sent_walks_competition_edges() {
    let mut server = fresh_server();
    server
        .handle_create_family(&text_args(&[("last_name", "Knox"), ("delivery_email", "k@x")]))
        .unwrap();
    server.db.add_competition(CompetitionRec {
        id: "competition:reg".to_string(),
        name: "Regionals".to_string(),
    });
    match server
        .handle_mark_gallery_sent(&text_args(&[
            ("last_name", "Knox"),
            ("competition_name", "region"),
        ]))
        .unwrap()
    {
        MarkSentResponse::NoEdge { message, .. } => {
            assert!(message.contains("No family_competition edge exists"));
        }
        other => panic!("expected the edge probe to refuse, got {:?}", other),
    }
    server.db.add_family_competition(FamilyCompetition {
        id: "family_competition:1".to_string(),
        family: "family:knox".to_string(),
        out: "competition:reg".to_string(),
        gallery_status: Some("pending".to_string()),
        sent_date: None,
    });
    match server
        .handle_mark_gallery_sent(&text_args(&[
            ("last_name", "Knox"),
            ("competition_name", "region"),
        ]))
        .unwrap()
    {
        MarkSentResponse::Sent { message, .. } => {
            assert_eq!(message, "Marked gallery as sent for Knox at region");
        }
        other => panic!("expected the mark to succeed, got {:?}", other),
    }
    assert_eq!(
        server.db.family_competitions[0].gallery_status,
        Some("sent".to_string())
    );
}

#[test]
fn find_skater_filters_sorts_and_formats() {
    let mut server = fresh_server();
    server.db.add_skater(SkaterRec {
        id: "skater:2".to_string(),
        first_name: "Zoe".to_string(),
        last_name: "Knox".to_string(),
    });
    server.db.add_skater(SkaterRec {
        id: "skater:1".to_string(),
        first_name: "Addie".to_string(),
        last_name: "Knox".to_string(),
    });
    server.db.add_skater(SkaterRec {
        id: "skater:3".to_string(),
        first_name: "Knoxley".to_string(),
        last_name: "Adams".to_string(),
    });
    match server.handle_find_skater(&text_args(&[("name", "knox")])).unwrap() {
        FindSkaterResponse::Found { count, skaters } => {
            assert_eq!(count, 3);
            assert_eq!(skaters[0].name, "Knoxley Adams");
            assert_eq!(skaters[1].name, "Addie Knox");
            assert_eq!(skaters[2].name, "Zoe Knox");
        }
        other => panic!("expected matches, got {:?}", other),
    }
    match server.handle_find_skater(&text_args(&[("name", "zzz")])).unwrap() {
        FindSkaterResponse::NotFound { message } => {
            assert_eq!(message, "No skaters found matching: zzz");
        }
        other => panic!("expected no matches, got {:?}", other),
    }
}

#[test]
fn get_family_lists_members() {
    let mut server = fresh_server();
    server
        .handle_create_family(&text_args(&[("last_name", "Knox"), ("delivery_email", "k@x")]))
        .unwrap();
    server.db.add_skater(SkaterRec {
        id: "skater:1".to_string(),
        first_name: "Addie".to_string(),
        last_name: "Knox".to_string(),
    });
    server.db.add_belongs_to(photography_mind::models::BelongsRec {
        skater_id: "skater:1".to_string(),
        family_id: "family:knox".to_string(),
    });
    match server.handle_get_family(&text_args(&[("last_name", "Knox")])).unwrap() {
        GetFamilyResponse::Found { family, skaters, skater_count } => {
            assert_eq!(family.id, "family:knox");
            assert_eq!(family.name, "Knox");
            assert_eq!(skater_count, 1);
            assert_eq!(skaters[0].name, "Addie Knox");
        }
        other => panic!("expected the family, got {:?}", other),
    }
}

#[test]
fn get_shoot_counts_linked_families() {
    let mut server = fresh_server();
    server
        .handle_create_family(&text_args(&[("last_name", "Knox"), ("delivery_email", "k@x")]))
        .unwrap();
    server
        .handle_create_shoot(&text_args(&[
            ("name", "Winter 2024"),
            ("shoot_type", "portrait"),
            ("date", "2024-01-15"),
            ("location", "Rink"),
        ]))
        .unwrap();
    server
        .handle_link_family_shoot(&text_args(&[("last_name", "Knox"), ("shoot_name", "winter")]))
        .unwrap();
    match server.handle_get_shoot(&text_args(&[("shoot_name", "winter")])).unwrap() {
        GetShootResponse::Found { shoot, family_count } => {
            assert_eq!(shoot.name, "Winter 2024");
            assert_eq!(shoot.shoot_date, Some("2024-01-15".to_string()));
            assert_eq!(shoot.location, Some("Rink".to_string()));
            assert_eq!(family_count, 1);
        }
        other => panic!("expected the shoot, got {:?}", other),
    }
    match server.handle_get_shoot(&text_args(&[("shoot_name", "summer")])).unwrap() {
        GetShootResponse::NotFound { message } => {
            assert_eq!(message, "No shoot found matching: summer");
        }
        other => panic!("expected no shoot, got {:?}", other),
    }
}

#[test]
fn status_counts_tables() {
    let mut server = fresh_server();
    server
        .handle_create_family(&text_args(&[("last_name", "Knox"), ("delivery_email", "k@x")]))
        .unwrap();
    server
        .handle_create_shoot(&text_args(&[("name", "Winter"), ("shoot_type", "portrait")]))
        .unwrap();
    server.db.set_event_count(4);
    let status = server.handle_status();
    assert_eq!(status.family, 1);
    assert_eq!(status.shoot, 1);
    assert_eq!(status.event, 4);
    assert_eq!(status.skater, 0);
    assert_eq!(status.family_shoot, 0);
}

#[test]
fn health_echoes_configuration() {
    let server = fresh_server();
    let health = server.handle_health(true);
    assert!(health.db);
    assert_eq!(health.namespace, "photography");
    assert_eq!(health.database, "ops");
}
