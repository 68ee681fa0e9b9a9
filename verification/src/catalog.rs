use vstd::prelude::*;
use vstd::string::StringExecFns;
use crate::text::str_eq;

verus! {

/// One argument in a tool's input schema.
#[derive(Clone, Debug, PartialEq)]
pub struct PropertySpec {
    pub name: String,
    pub json_type: String,
    pub description: String,
}

/// A tool's input schema: an object with named properties, some required.
#[derive(Clone, Debug, PartialEq)]
pub struct SchemaSpec {
    pub properties: Vec<PropertySpec>,
    pub required: Vec<String>,
}

/// One catalog entry.
#[derive(Clone, Debug, PartialEq)]
pub struct ToolSpec {
    pub name: String,
    pub title: String,
    pub description: String,
    pub input_schema: SchemaSpec,
}

/// The tools, in catalog order.
#[derive(Clone, Copy, Debug, PartialEq, Eq, Structural)]
pub enum ToolName {
    Health,
    Status,
    GetContact,
    FindSkater,
    GetFamily,
    MarkGallerySent,
    ListPendingGalleries,
    CompetitionStatus,
    CreateShoot,
    MarkShootSent,
    ListShoots,
    CreateFamily,
    LinkFamilyShoot,
    RecordPurchase,
    ListPendingShootGalleries,
    ShootStatus,
    GetShoot,
    ListFamilies,
    SyncShootproofGalleries,
    SyncShootproofOrders,
}

/// Which tool a request names, if any.
pub open spec fn resolve_spec(n: Seq<char>) -> Option<ToolName> {
    if n == "health"@ {
        Some(ToolName::Health)
    } else if n == "status"@ {
        Some(ToolName::Status)
    } else if n == "get_contact"@ {
        Some(ToolName::GetContact)
    } else if n == "find_skater"@ {
        Some(ToolName::FindSkater)
    } else if n == "get_family"@ {
        Some(ToolName::GetFamily)
    } else if n == "mark_gallery_sent"@ {
        Some(ToolName::MarkGallerySent)
    } else if n == "list_pending_galleries"@ {
        Some(ToolName::ListPendingGalleries)
    } else if n == "competition_status"@ {
        Some(ToolName::CompetitionStatus)
    } else if n == "create_shoot"@ {
        Some(ToolName::CreateShoot)
    } else if n == "mark_shoot_sent"@ {
        Some(ToolName::MarkShootSent)
    } else if n == "list_shoots"@ {
        Some(ToolName::ListShoots)
    } else if n == "create_family"@ {
        Some(ToolName::CreateFamily)
    } else if n == "link_family_shoot"@ {
        Some(ToolName::LinkFamilyShoot)
    } else if n == "record_purchase"@ {
        Some(ToolName::RecordPurchase)
    } else if n == "list_pending_shoot_galleries"@ {
        Some(ToolName::ListPendingShootGalleries)
    } else if n == "shoot_status"@ {
        Some(ToolName::ShootStatus)
    } else if n == "get_shoot"@ {
        Some(ToolName::GetShoot)
    } else if n == "list_families"@ {
        Some(ToolName::ListFamilies)
    } else if n == "sync_shootproof_galleries"@ {
        Some(ToolName::SyncShootproofGalleries)
    } else if n == "sync_shootproof_orders"@ {
        Some(ToolName::SyncShootproofOrders)
    } else {
        None
    }
}

/// Looks a tool up by name.
pub fn resolve_tool(name: &str) -> (r: Option<ToolName>)
    ensures
        r == resolve_spec(name@),
{
    if str_eq(name, "health") {
        Some(ToolName::Health)
    } else if str_eq(name, "status") {
        Some(ToolName::Status)
    } else if str_eq(name, "get_contact") {
        Some(ToolName::GetContact)
    } else if str_eq(name, "find_skater") {
        Some(ToolName::FindSkater)
    } else if str_eq(name, "get_family") {
        Some(ToolName::GetFamily)
    } else if str_eq(name, "mark_gallery_sent") {
        Some(ToolName::MarkGallerySent)
    } else if str_eq(name, "list_pending_galleries") {
        Some(ToolName::ListPendingGalleries)
    } else if str_eq(name, "competition_status") {
        Some(ToolName::CompetitionStatus)
    } else if str_eq(name, "create_shoot") {
        Some(ToolName::CreateShoot)
    } else if str_eq(name, "mark_shoot_sent") {
        Some(ToolName::MarkShootSent)
    } else if str_eq(name, "list_shoots") {
        Some(ToolName::ListShoots)
    } else if str_eq(name, "create_family") {
        Some(ToolName::CreateFamily)
    } else if str_eq(name, "link_family_shoot") {
        Some(ToolName::LinkFamilyShoot)
    } else if str_eq(name, "record_purchase") {
        Some(ToolName::RecordPurchase)
    } else if str_eq(name, "list_pending_shoot_galleries") {
        Some(ToolName::ListPendingShootGalleries)
    } else if str_eq(name, "shoot_status") {
        Some(ToolName::ShootStatus)
    } else if str_eq(name, "get_shoot") {
        Some(ToolName::GetShoot)
    } else if str_eq(name, "list_families") {
        Some(ToolName::ListFamilies)
    } else if str_eq(name, "sync_shootproof_galleries") {
        Some(ToolName::SyncShootproofGalleries)
    } else if str_eq(name, "sync_shootproof_orders") {
        Some(ToolName::SyncShootproofOrders)
    } else {
        None
    }
}

fn prop(name: &str, json_type: &str, description: &str) -> (r: PropertySpec)
    ensures
        r.name@ == name@,
        r.json_type@ == json_type@,
        r.description@ == description@,
{
    PropertySpec {
        name: String::from_str(name),
        json_type: String::from_str(json_type),
        description: String::from_str(description),
    }
}

/// The published catalog, in declared order: each tool's name, human
/// strings, and input schema. The contract pins the order of the names,
/// their uniqueness, every schema's property list, and its required list.
#[verifier::rlimit(100)]
pub fn list_tools() -> (r: Vec<ToolSpec>)
    ensures
        r@.len() == 20,
        forall|i: int|
            0 <= i < r@.len() ==> resolve_spec((#[trigger] r@[i]).name@) is Some,
        forall|i: int, j: int|
            0 <= i < j < r@.len() ==> (#[trigger] r@[i]).name@ != (#[trigger] r@[j]).name@,
        r@[0].name@ == "health"@ && r@[0].input_schema.required@.len() == 0,
        r@[1].name@ == "status"@ && r@[1].input_schema.required@.len() == 0,
        r@[2].name@ == "get_contact"@ && r@[2].input_schema.required@.len() == 1 && r@[
            2].input_schema.required@[0]@ == "last_name"@,
        r@[3].name@ == "find_skater"@ && r@[3].input_schema.required@.len() == 1 && r@[
            3].input_schema.required@[0]@ == "name"@,
        r@[4].name@ == "get_family"@ && r@[4].input_schema.required@.len() == 1 && r@[
            4].input_schema.required@[0]@ == "last_name"@,
        r@[5].name@ == "mark_gallery_sent"@ && r@[5].input_schema.required@.len() == 2 && r@[
            5].input_schema.required@[0]@ == "last_name"@ && r@[5].input_schema.required@[1]@
            == "competition_name"@,
        r@[6].name@ == "list_pending_galleries"@ && r@[6].input_schema.required@.len() == 1 && r@[
            6].input_schema.required@[0]@ == "competition_name"@,
        r@[7].name@ == "competition_status"@ && r@[7].input_schema.required@.len() == 1 && r@[
            7].input_schema.required@[0]@ == "competition_name"@,
        r@[8].name@ == "create_shoot"@ && r@[8].input_schema.required@.len() == 2 && r@[
            8].input_schema.required@[0]@ == "name"@ && r@[8].input_schema.required@[1]@
            == "shoot_type"@,
        r@[9].name@ == "mark_shoot_sent"@ && r@[9].input_schema.required@.len() == 2 && r@[
            9].input_schema.required@[0]@ == "last_name"@ && r@[9].input_schema.required@[1]@
            == "shoot_name"@,
        r@[10].name@ == "list_shoots"@ && r@[10].input_schema.required@.len() == 0,
        r@[11].name@ == "create_family"@ && r@[11].input_schema.required@.len() == 2 && r@[
            11].input_schema.required@[0]@ == "last_name"@ && r@[11].input_schema.required@[1]@
            == "delivery_email"@,
        r@[12].name@ == "link_family_shoot"@ && r@[12].input_schema.required@.len() == 2 && r@[
            12].input_schema.required@[0]@ == "last_name"@ && r@[12].input_schema.required@[1]@
            == "shoot_name"@,
        r@[13].name@ == "record_purchase"@ && r@[13].input_schema.required@.len() == 3 && r@[
            13].input_schema.required@[0]@ == "last_name"@ && r@[13].input_schema.required@[1]@
            == "amount"@ && r@[13].input_schema.required@[2]@ == "shoot_name"@,
        r@[14].name@ == "list_pending_shoot_galleries"@ && r@[14].input_schema.required@.len()
            == 1 && r@[14].input_schema.required@[0]@ == "shoot_name"@,
        r@[15].name@ == "shoot_status"@ && r@[15].input_schema.required@.len() == 1 && r@[
            15].input_schema.required@[0]@ == "shoot_name"@,
        r@[16].name@ == "get_shoot"@ && r@[16].input_schema.required@.len() == 1 && r@[
            16].input_schema.required@[0]@ == "shoot_name"@,
        r@[17].name@ == "list_families"@ && r@[17].input_schema.required@.len() == 0,
        r@[18].name@ == "sync_shootproof_galleries"@ && r@[18].input_schema.required@.len() == 1
            && r@[18].input_schema.required@[0]@ == "json_path"@,
        r@[19].name@ == "sync_shootproof_orders"@ && r@[19].input_schema.required@.len() == 1
            && r@[19].input_schema.required@[0]@ == "json_path"@,
        r@[0].input_schema.properties@.len() == 0,
        r@[1].input_schema.properties@.len() == 0,
        r@[2].input_schema.properties@.len() == 1 && r@[2].input_schema.properties@[0].name@ == "last_name"@,
        r@[3].input_schema.properties@.len() == 1 && r@[3].input_schema.properties@[0].name@ == "name"@,
        r@[4].input_schema.properties@.len() == 1 && r@[4].input_schema.properties@[0].name@ == "last_name"@,
        r@[5].input_schema.properties@.len() == 2 && r@[5].input_schema.properties@[0].name@ == "last_name"@ && r@[5].input_schema.properties@[1].name@ == "competition_name"@,
        r@[6].input_schema.properties@.len() == 1 && r@[6].input_schema.properties@[0].name@ == "competition_name"@,
        r@[7].input_schema.properties@.len() == 1 && r@[7].input_schema.properties@[0].name@ == "competition_name"@,
        r@[8].input_schema.properties@.len() == 5 && r@[8].input_schema.properties@[0].name@ == "name"@ && r@[8].input_schema.properties@[1].name@ == "shoot_type"@ && r@[8].input_schema.properties@[2].name@ == "date"@ && r@[8].input_schema.properties@[3].name@ == "location"@ && r@[8].input_schema.properties@[4].name@ == "notes"@,
        r@[9].input_schema.properties@.len() == 2 && r@[9].input_schema.properties@[0].name@ == "last_name"@ && r@[9].input_schema.properties@[1].name@ == "shoot_name"@,
        r@[10].input_schema.properties@.len() == 0,
        r@[11].input_schema.properties@.len() == 3 && r@[11].input_schema.properties@[0].name@ == "last_name"@ && r@[11].input_schema.properties@[1].name@ == "delivery_email"@ && r@[11].input_schema.properties@[2].name@ == "notes"@,
        r@[12].input_schema.properties@.len() == 2 && r@[12].input_schema.properties@[0].name@ == "last_name"@ && r@[12].input_schema.properties@[1].name@ == "shoot_name"@,
        r@[13].input_schema.properties@.len() == 3 && r@[13].input_schema.properties@[0].name@ == "last_name"@ && r@[13].input_schema.properties@[1].name@ == "amount"@ && r@[13].input_schema.properties@[1].json_type@ == "number"@ && r@[13].input_schema.properties@[2].name@ == "shoot_name"@,
        r@[14].input_schema.properties@.len() == 1 && r@[14].input_schema.properties@[0].name@ == "shoot_name"@,
        r@[15].input_schema.properties@.len() == 1 && r@[15].input_schema.properties@[0].name@ == "shoot_name"@,
        r@[16].input_schema.properties@.len() == 1 && r@[16].input_schema.properties@[0].name@ == "shoot_name"@,
        r@[17].input_schema.properties@.len() == 1 && r@[17].input_schema.properties@[0].name@ == "search"@,
        r@[18].input_schema.properties@.len() == 2 && r@[18].input_schema.properties@[0].name@ == "json_path"@ && r@[18].input_schema.properties@[1].name@ == "dry_run"@ && r@[18].input_schema.properties@[1].json_type@ == "boolean"@,
        r@[19].input_schema.properties@.len() == 2 && r@[19].input_schema.properties@[0].name@ == "json_path"@ && r@[19].input_schema.properties@[1].name@ == "dry_run"@ && r@[19].input_schema.properties@[1].json_type@ == "boolean"@,
{
    let mut tools: Vec<ToolSpec> = Vec::new();
    tools.push(
        ToolSpec {
            name: String::from_str("health"),
            title: String::from_str("Health"),
            description: String::from_str("Check database connectivity and config surface"),
            input_schema: SchemaSpec { properties: Vec::new(), required: Vec::new() },
        },
    );
    tools.push(
        ToolSpec {
            name: String::from_str("status"),
            title: String::from_str("Status"),
            description: String::from_str("Counts key photography tables"),
            input_schema: SchemaSpec { properties: Vec::new(), required: Vec::new() },
        },
    );
    tools.push(
        ToolSpec {
            name: String::from_str("get_contact"),
            title: String::from_str("Get Contact"),
            description: String::from_str("Get email and phone for a family by last name"),
            input_schema: SchemaSpec {
                properties: vec![
                    prop("last_name", "string", "Family last name to search for"),
                ],
                required: vec![String::from_str("last_name")],
            },
        },
    );
    tools.push(
        ToolSpec {
            name: String::from_str("find_skater"),
            title: String::from_str("Find Skater"),
            description: String::from_str(
                "Search for skaters by partial name match (first or last)",
            ),
            input_schema: SchemaSpec {
                properties: vec![prop("name", "string", "Name to search for (first or last)")],
                required: vec![String::from_str("name")],
            },
        },
    );
    tools.push(
        ToolSpec {
            name: String::from_str("get_family"),
            title: String::from_str("Get Family"),
            description: String::from_str(
                "Get complete family record including all family members",
            ),
            input_schema: SchemaSpec {
                properties: vec![
                    prop("last_name", "string", "Family last name to search for"),
                ],
                required: vec![String::from_str("last_name")],
            },
        },
    );
    tools.push(
        ToolSpec {
            name: String::from_str("mark_gallery_sent"),
            title: String::from_str("Mark Gallery Sent"),
            description: String::from_str("Mark gallery as sent for a family at a competition"),
            input_schema: SchemaSpec {
                properties: vec![
                    prop("last_name", "string", "Family last name"),
                    prop("competition_name", "string", "Competition name"),
                ],
                required: vec![
                    String::from_str("last_name"),
                    String::from_str("competition_name"),
                ],
            },
        },
    );
    tools.push(
        ToolSpec {
            name: String::from_str("list_pending_galleries"),
            title: String::from_str("List Pending Galleries"),
            description: String::from_str(
                "List all families with pending galleries for a competition",
            ),
            input_schema: SchemaSpec {
                properties: vec![
                    prop("competition_name", "string", "Competition name to query"),
                ],
                required: vec![String::from_str("competition_name")],
            },
        },
    );
    tools.push(
        ToolSpec {
            name: String::from_str("competition_status"),
            title: String::from_str("Competition Status"),
            description: String::from_str("Get status overview and counts for a competition"),
            input_schema: SchemaSpec {
                properties: vec![
                    prop("competition_name", "string", "Competition name to query"),
                ],
                required: vec![String::from_str("competition_name")],
            },
        },
    );
    tools.push(
        ToolSpec {
            name: String::from_str("create_shoot"),
            title: String::from_str("Create Shoot"),
            description: String::from_str(
                "Create a new shoot (portrait, commercial, event, etc.)",
            ),
            input_schema: SchemaSpec {
                properties: vec![
                    prop("name", "string", "Shoot name"),
                    prop(
                        "shoot_type",
                        "string",
                        "Type of shoot (portrait, commercial, event, etc.)",
                    ),
                    prop("date", "string", "Shoot date (YYYY-MM-DD format, optional)"),
                    prop("location", "string", "Shoot location (optional)"),
                    prop("notes", "string", "Shoot notes (optional)"),
                ],
                required: vec![String::from_str("name"), String::from_str("shoot_type")],
            },
        },
    );
    tools.push(
        ToolSpec {
            name: String::from_str("mark_shoot_sent"),
            title: String::from_str("Mark Shoot Sent"),
            description: String::from_str("Mark shoot gallery as sent for a family"),
            input_schema: SchemaSpec {
                properties: vec![
                    prop("last_name", "string", "Family last name"),
                    prop("shoot_name", "string", "Shoot name"),
                ],
                required: vec![String::from_str("last_name"), String::from_str("shoot_name")],
            },
        },
    );
    tools.push(
        ToolSpec {
            name: String::from_str("list_shoots"),
            title: String::from_str("List Shoots"),
            description: String::from_str("List all shoots"),
            input_schema: SchemaSpec { properties: Vec::new(), required: Vec::new() },
        },
    );
    tools.push(
        ToolSpec {
            name: String::from_str("create_family"),
            title: String::from_str("Create Family"),
            description: String::from_str("Create a new family/client in the database"),
            input_schema: SchemaSpec {
                properties: vec![
                    prop("last_name", "string", "Family last name"),
                    prop("delivery_email", "string", "Email for gallery delivery"),
                    prop("notes", "string", "Notes about the family (optional)"),
                ],
                required: vec![
                    String::from_str("last_name"),
                    String::from_str("delivery_email"),
                ],
            },
        },
    );
    tools.push(
        ToolSpec {
            name: String::from_str("link_family_shoot"),
            title: String::from_str("Link Family to Shoot"),
            description: String::from_str(
                "Connect a family to a shoot (creates family_shoot relationship)",
            ),
            input_schema: SchemaSpec {
                properties: vec![
                    prop("last_name", "string", "Family last name"),
                    prop("shoot_name", "string", "Shoot name to link"),
                ],
                required: vec![String::from_str("last_name"), String::from_str("shoot_name")],
            },
        },
    );
    tools.push(
        ToolSpec {
            name: String::from_str("record_purchase"),
            title: String::from_str("Record Purchase"),
            description: String::from_str("Record a purchase amount for a family at a shoot"),
            input_schema: SchemaSpec {
                properties: vec![
                    prop("last_name", "string", "Family last name"),
                    prop("amount", "number", "Purchase amount in dollars"),
                    prop("shoot_name", "string", "Shoot name"),
                ],
                required: vec![
                    String::from_str("last_name"),
                    String::from_str("amount"),
                    String::from_str("shoot_name"),
                ],
            },
        },
    );
    tools.push(
        ToolSpec {
            name: String::from_str("list_pending_shoot_galleries"),
            title: String::from_str("List Pending Shoot Galleries"),
            description: String::from_str(
                "List all families with pending galleries for a shoot",
            ),
            input_schema: SchemaSpec {
                properties: vec![prop("shoot_name", "string", "Shoot name to query")],
                required: vec![String::from_str("shoot_name")],
            },
        },
    );
    tools.push(
        ToolSpec {
            name: String::from_str("shoot_status"),
            title: String::from_str("Shoot Status"),
            description: String::from_str("Get status overview and revenue for a shoot"),
            input_schema: SchemaSpec {
                properties: vec![prop("shoot_name", "string", "Shoot name to query")],
                required: vec![String::from_str("shoot_name")],
            },
        },
    );
    tools.push(
        ToolSpec {
            name: String::from_str("get_shoot"),
            title: String::from_str("Get Shoot"),
            description: String::from_str("Get details about a specific shoot"),
            input_schema: SchemaSpec {
                properties: vec![prop("shoot_name", "string", "Shoot name to query")],
                required: vec![String::from_str("shoot_name")],
            },
        },
    );
    tools.push(
        ToolSpec {
            name: String::from_str("list_families"),
            title: String::from_str("List Families"),
            description: String::from_str("List all families/clients (with optional search)"),
            input_schema: SchemaSpec {
                properties: vec![
                    prop("search", "string", "Optional search term to filter families"),
                ],
                required: Vec::new(),
            },
        },
    );
    tools.push(
        ToolSpec {
            name: String::from_str("sync_shootproof_galleries"),
            title: String::from_str("Sync ShootProof Galleries"),
            description: String::from_str(
                "Import galleries from ShootProof export JSON, matching to families by name",
            ),
            input_schema: SchemaSpec {
                properties: vec![
                    prop(
                        "json_path",
                        "string",
                        "Path to galleries JSON file from shootproof-cli export-galleries",
                    ),
                    prop(
                        "dry_run",
                        "boolean",
                        "If true, only preview matches without updating database",
                    ),
                ],
                required: vec![String::from_str("json_path")],
            },
        },
    );
    tools.push(
        ToolSpec {
            name: String::from_str("sync_shootproof_orders"),
            title: String::from_str("Sync ShootProof Orders"),
            description: String::from_str(
                "Import orders from ShootProof export JSON, updating emails and recording purchases",
            ),
            input_schema: SchemaSpec {
                properties: vec![
                    prop(
                        "json_path",
                        "string",
                        "Path to orders JSON file from shootproof-cli export-orders",
                    ),
                    prop(
                        "dry_run",
                        "boolean",
                        "If true, only preview updates without modifying database",
                    ),
                ],
                required: vec![String::from_str("json_path")],
            },
        },
    );
    proof {
        reveal_strlit("health");
        reveal_strlit("status");
        reveal_strlit("get_contact");
        reveal_strlit("find_skater");
        reveal_strlit("get_family");
        reveal_strlit("mark_gallery_sent");
        reveal_strlit("list_pending_galleries");
        reveal_strlit("competition_status");
        reveal_strlit("create_shoot");
        reveal_strlit("mark_shoot_sent");
        reveal_strlit("list_shoots");
        reveal_strlit("create_family");
        reveal_strlit("link_family_shoot");
        reveal_strlit("record_purchase");
        reveal_strlit("list_pending_shoot_galleries");
        reveal_strlit("shoot_status");
        reveal_strlit("get_shoot");
        reveal_strlit("list_families");
        reveal_strlit("sync_shootproof_galleries");
        reveal_strlit("sync_shootproof_orders");
        assert forall|i: int, j: int|
            0 <= i < j < tools@.len() implies (#[trigger] tools@[i]).name@ != (
        #[trigger] tools@[j]).name@ by {
            // every pair of names differs in length or in its first character
            assert(tools@[i].name@.len() != tools@[j].name@.len() || tools@[i].name@[0]
                != tools@[j].name@[0]);
        }
    }
    tools
}

} // verus!
