use vstd::prelude::*;
use crate::args::Args;
use crate::catalog::{resolve_spec, resolve_tool, ToolName};
use crate::responses::{
    CompetitionStatusResponse, ContactResponse, CreateFamilyResponse, CreateShootResponse,
    FindSkaterResponse, GetFamilyResponse, GetShootResponse, HealthResponse, LinkResponse,
    ListFamiliesResponse, ListShootsResponse, MarkSentResponse, PendingListResponse,
    RecordPurchaseResponse, ShootStatusResponse, StatusResponse, SyncGalleriesReport,
    SyncOrdersReport, ToolError,
};
use crate::args::ArgValue;
use crate::server::{
    competition_status_post, create_family_post, create_shoot_post, find_skater_post,
    get_contact_post, get_family_post, get_shoot_post, health_post, link_family_shoot_post,
    list_families_post, list_pending_galleries_post, list_pending_shoot_galleries_post,
    list_shoots_post, mark_gallery_sent_post, mark_shoot_sent_post, record_purchase_post,
    shoot_status_post, status_post, PhotoMindServer,
};
use crate::sync::{sync_galleries_post, sync_orders_post, FileLoad};
use crate::text::concat2;

verus! {

/// The protocol-level error codes an invocation can end in.
#[derive(Clone, Copy, Debug, PartialEq, Eq, Structural)]
pub enum ErrorCode {
    MethodNotFound,
    InvalidParams,
    InternalError,
}

#[derive(Clone, Debug, PartialEq)]
pub struct ProtocolError {
    pub code: ErrorCode,
    pub message: String,
}

/// A successful invocation's payload, one variant per tool.
#[derive(Clone, Debug, PartialEq)]
pub enum ToolOutput {
    Health(HealthResponse),
    Status(StatusResponse),
    Contact(ContactResponse),
    FindSkater(FindSkaterResponse),
    GetFamily(GetFamilyResponse),
    MarkGallerySent(MarkSentResponse),
    PendingGalleries(PendingListResponse),
    CompetitionStatus(CompetitionStatusResponse),
    CreateShoot(CreateShootResponse),
    MarkShootSent(MarkSentResponse),
    ListShoots(ListShootsResponse),
    CreateFamily(CreateFamilyResponse),
    LinkFamilyShoot(LinkResponse),
    RecordPurchase(RecordPurchaseResponse),
    PendingShootGalleries(PendingListResponse),
    ShootStatus(ShootStatusResponse),
    GetShoot(GetShootResponse),
    ListFamilies(ListFamiliesResponse),
    SyncGalleries(SyncGalleriesReport),
    SyncOrders(SyncOrdersReport),
}

/// The routing layer around the server: requests name a tool; an unknown
/// name is refused before any handler runs.
pub struct Router(pub PhotoMindServer);

/// The handler failure a protocol error stands for: the message is kept
/// word for word, only the code names the kind.
pub open spec fn as_tool_error(e: ProtocolError) -> ToolError {
    if e.code == ErrorCode::InvalidParams {
        ToolError::InvalidParams(e.message)
    } else {
        ToolError::Internal(e.message)
    }
}

/// For a resolved tool, the dispatcher's outcome is exactly the named
/// operation's outcome: a success carries that tool's payload meeting the
/// operation's own contract, and a failure carries the operation's own
/// error, message preserved, code mapped from its kind.
pub open spec fn dispatched(
    t: ToolName,
    pre: PhotoMindServer,
    post: PhotoMindServer,
    req: Seq<(String, ArgValue)>,
    db_ok: bool,
    file: FileLoad,
    r: Result<ToolOutput, ProtocolError>,
) -> bool {
    match t {
        ToolName::Health => post == pre && (r matches Ok(ToolOutput::Health(h)) && health_post(
            pre,
            db_ok,
            h,
        )),
        ToolName::Status => post == pre && (r matches Ok(ToolOutput::Status(x)) && status_post(
            pre,
            x,
        )),
        ToolName::GetContact => post == pre && match r {
            Ok(out) => out matches ToolOutput::Contact(resp) && get_contact_post(
                pre,
                req,
                Ok(resp),
            ),
            Err(e) => e.code != ErrorCode::MethodNotFound && get_contact_post(
                pre,
                req,
                Err(as_tool_error(e)),
            ),
        },
        ToolName::FindSkater => post == pre && match r {
            Ok(out) => out matches ToolOutput::FindSkater(resp) && find_skater_post(
                pre,
                req,
                Ok(resp),
            ),
            Err(e) => e.code != ErrorCode::MethodNotFound && find_skater_post(
                pre,
                req,
                Err(as_tool_error(e)),
            ),
        },
        ToolName::GetFamily => post == pre && match r {
            Ok(out) => out matches ToolOutput::GetFamily(resp) && get_family_post(
                pre,
                req,
                Ok(resp),
            ),
            Err(e) => e.code != ErrorCode::MethodNotFound && get_family_post(
                pre,
                req,
                Err(as_tool_error(e)),
            ),
        },
        ToolName::MarkGallerySent => match r {
            Ok(out) => out matches ToolOutput::MarkGallerySent(resp) && mark_gallery_sent_post(
                pre,
                post,
                req,
                Ok(resp),
            ),
            Err(e) => e.code != ErrorCode::MethodNotFound && mark_gallery_sent_post(
                pre,
                post,
                req,
                Err(as_tool_error(e)),
            ),
        },
        ToolName::ListPendingGalleries => post == pre && match r {
            Ok(out) => out matches ToolOutput::PendingGalleries(resp)
                && list_pending_galleries_post(pre, req, Ok(resp)),
            Err(e) => e.code != ErrorCode::MethodNotFound && list_pending_galleries_post(
                pre,
                req,
                Err(as_tool_error(e)),
            ),
        },
        ToolName::CompetitionStatus => post == pre && match r {
            Ok(out) => out matches ToolOutput::CompetitionStatus(resp) && competition_status_post(
                pre,
                req,
                Ok(resp),
            ),
            Err(e) => e.code != ErrorCode::MethodNotFound && competition_status_post(
                pre,
                req,
                Err(as_tool_error(e)),
            ),
        },
        ToolName::CreateShoot => match r {
            Ok(out) => out matches ToolOutput::CreateShoot(resp) && create_shoot_post(
                pre,
                post,
                req,
                Ok(resp),
            ),
            Err(e) => e.code != ErrorCode::MethodNotFound && create_shoot_post(
                pre,
                post,
                req,
                Err(as_tool_error(e)),
            ),
        },
        ToolName::MarkShootSent => match r {
            Ok(out) => out matches ToolOutput::MarkShootSent(resp) && mark_shoot_sent_post(
                pre,
                post,
                req,
                Ok(resp),
            ),
            Err(e) => e.code != ErrorCode::MethodNotFound && mark_shoot_sent_post(
                pre,
                post,
                req,
                Err(as_tool_error(e)),
            ),
        },
        ToolName::ListShoots => post == pre && (r matches Ok(ToolOutput::ListShoots(resp))
            && list_shoots_post(pre, resp)),
        ToolName::CreateFamily => match r {
            Ok(out) => out matches ToolOutput::CreateFamily(resp) && create_family_post(
                pre,
                post,
                req,
                Ok(resp),
            ),
            Err(e) => e.code != ErrorCode::MethodNotFound && create_family_post(
                pre,
                post,
                req,
                Err(as_tool_error(e)),
            ),
        },
        ToolName::LinkFamilyShoot => match r {
            Ok(out) => out matches ToolOutput::LinkFamilyShoot(resp) && link_family_shoot_post(
                pre,
                post,
                req,
                Ok(resp),
            ),
            Err(e) => e.code != ErrorCode::MethodNotFound && link_family_shoot_post(
                pre,
                post,
                req,
                Err(as_tool_error(e)),
            ),
        },
        ToolName::RecordPurchase => match r {
            Ok(out) => out matches ToolOutput::RecordPurchase(resp) && record_purchase_post(
                pre,
                post,
                req,
                Ok(resp),
            ),
            Err(e) => e.code != ErrorCode::MethodNotFound && record_purchase_post(
                pre,
                post,
                req,
                Err(as_tool_error(e)),
            ),
        },
        ToolName::ListPendingShootGalleries => post == pre && match r {
            Ok(out) => out matches ToolOutput::PendingShootGalleries(resp)
                && list_pending_shoot_galleries_post(pre, req, Ok(resp)),
            Err(e) => e.code != ErrorCode::MethodNotFound && list_pending_shoot_galleries_post(
                pre,
                req,
                Err(as_tool_error(e)),
            ),
        },
        ToolName::ShootStatus => post == pre && match r {
            Ok(out) => out matches ToolOutput::ShootStatus(resp) && shoot_status_post(
                pre,
                req,
                Ok(resp),
            ),
            Err(e) => e.code != ErrorCode::MethodNotFound && shoot_status_post(
                pre,
                req,
                Err(as_tool_error(e)),
            ),
        },
        ToolName::GetShoot => post == pre && match r {
            Ok(out) => out matches ToolOutput::GetShoot(resp) && get_shoot_post(
                pre,
                req,
                Ok(resp),
            ),
            Err(e) => e.code != ErrorCode::MethodNotFound && get_shoot_post(
                pre,
                req,
                Err(as_tool_error(e)),
            ),
        },
        ToolName::ListFamilies => post == pre && match r {
            Ok(out) => out matches ToolOutput::ListFamilies(resp) && list_families_post(
                pre,
                req,
                Ok(resp),
            ),
            Err(e) => e.code != ErrorCode::MethodNotFound && list_families_post(
                pre,
                req,
                Err(as_tool_error(e)),
            ),
        },
        ToolName::SyncShootproofGalleries => match r {
            Ok(out) => out matches ToolOutput::SyncGalleries(resp) && sync_galleries_post(
                pre,
                post,
                req,
                file,
                Ok(resp),
            ),
            Err(e) => e.code != ErrorCode::MethodNotFound && sync_galleries_post(
                pre,
                post,
                req,
                file,
                Err(as_tool_error(e)),
            ),
        },
        ToolName::SyncShootproofOrders => match r {
            Ok(out) => out matches ToolOutput::SyncOrders(resp) && sync_orders_post(
                pre,
                post,
                req,
                file,
                Ok(resp),
            ),
            Err(e) => e.code != ErrorCode::MethodNotFound && sync_orders_post(
                pre,
                post,
                req,
                file,
                Err(as_tool_error(e)),
            ),
        },
    }
}

impl Router {
    /// Dispatches one invocation. The caller supplies the liveness probe's
    /// verdict, for the health tool, and the loaded file, for the sync
    /// tools; neither is touched elsewhere.
    pub fn call_tool(
        &mut self,
        name: &str,
        args: &Args,
        db_ok: bool,
        file: &FileLoad,
    ) -> (r: Result<ToolOutput, ProtocolError>)
        requires
            old(self).0.db.wf(),
            old(self).0.db.clock < u64::MAX,
            old(self).0.db.next_id < u64::MAX,
        ensures
            final(self).0.db.wf(),
            final(self).0.cfg == old(self).0.cfg,
            ({
                match resolve_spec(name@) {
                    None => (r matches Err(e) && e.code == ErrorCode::MethodNotFound && e.message@
                        == "Unknown tool: "@ + name@) && *final(self) == *old(self),
                    Some(t) => dispatched(
                        t,
                        old(self).0,
                        final(self).0,
                        args.entries@,
                        db_ok,
                        *file,
                        r,
                    ),
                }
            }),
    {
        let tool = match resolve_tool(name) {
            Some(t) => t,
            None => {
                return Err(
                    ProtocolError {
                        code: ErrorCode::MethodNotFound,
                        message: concat2("Unknown tool: ", name),
                    },
                );
            },
        };
        match tool {
            ToolName::Health => Ok(ToolOutput::Health(self.0.handle_health(db_ok))),
            ToolName::Status => Ok(ToolOutput::Status(self.0.handle_status())),
            ToolName::GetContact => match self.0.handle_get_contact(args) {
                Ok(resp) => Ok(ToolOutput::Contact(resp)),
                Err(e) => Err(protocol_error(e)),
            },
            ToolName::FindSkater => match self.0.handle_find_skater(args) {
                Ok(resp) => Ok(ToolOutput::FindSkater(resp)),
                Err(e) => Err(protocol_error(e)),
            },
            ToolName::GetFamily => match self.0.handle_get_family(args) {
                Ok(resp) => Ok(ToolOutput::GetFamily(resp)),
                Err(e) => Err(protocol_error(e)),
            },
            ToolName::MarkGallerySent => match self.0.handle_mark_gallery_sent(args) {
                Ok(resp) => Ok(ToolOutput::MarkGallerySent(resp)),
                Err(e) => Err(protocol_error(e)),
            },
            ToolName::ListPendingGalleries => match self.0.handle_list_pending_galleries(args) {
                Ok(resp) => Ok(ToolOutput::PendingGalleries(resp)),
                Err(e) => Err(protocol_error(e)),
            },
            ToolName::CompetitionStatus => match self.0.handle_competition_status(args) {
                Ok(resp) => Ok(ToolOutput::CompetitionStatus(resp)),
                Err(e) => Err(protocol_error(e)),
            },
            ToolName::CreateShoot => match self.0.handle_create_shoot(args) {
                Ok(resp) => Ok(ToolOutput::CreateShoot(resp)),
                Err(e) => Err(protocol_error(e)),
            },
            ToolName::MarkShootSent => match self.0.handle_mark_shoot_sent(args) {
                Ok(resp) => Ok(ToolOutput::MarkShootSent(resp)),
                Err(e) => Err(protocol_error(e)),
            },
            ToolName::ListShoots => Ok(ToolOutput::ListShoots(self.0.handle_list_shoots())),
            ToolName::CreateFamily => match self.0.handle_create_family(args) {
                Ok(resp) => Ok(ToolOutput::CreateFamily(resp)),
                Err(e) => Err(protocol_error(e)),
            },
            ToolName::LinkFamilyShoot => match self.0.handle_link_family_shoot(args) {
                Ok(resp) => Ok(ToolOutput::LinkFamilyShoot(resp)),
                Err(e) => Err(protocol_error(e)),
            },
            ToolName::RecordPurchase => match self.0.handle_record_purchase(args) {
                Ok(resp) => Ok(ToolOutput::RecordPurchase(resp)),
                Err(e) => Err(protocol_error(e)),
            },
            ToolName::ListPendingShootGalleries => match self.0.handle_list_pending_shoot_galleries(
                args,
            ) {
                Ok(resp) => Ok(ToolOutput::PendingShootGalleries(resp)),
                Err(e) => Err(protocol_error(e)),
            },
            ToolName::ShootStatus => match self.0.handle_shoot_status(args) {
                Ok(resp) => Ok(ToolOutput::ShootStatus(resp)),
                Err(e) => Err(protocol_error(e)),
            },
            ToolName::GetShoot => match self.0.handle_get_shoot(args) {
                Ok(resp) => Ok(ToolOutput::GetShoot(resp)),
                Err(e) => Err(protocol_error(e)),
            },
            ToolName::ListFamilies => match self.0.handle_list_families(args) {
                Ok(resp) => Ok(ToolOutput::ListFamilies(resp)),
                Err(e) => Err(protocol_error(e)),
            },
            ToolName::SyncShootproofGalleries => match self.0.handle_sync_shootproof_galleries(
                args,
                file,
            ) {
                Ok(resp) => Ok(ToolOutput::SyncGalleries(resp)),
                Err(e) => Err(protocol_error(e)),
            },
            ToolName::SyncShootproofOrders => match self.0.handle_sync_shootproof_orders(
                args,
                file,
            ) {
                Ok(resp) => Ok(ToolOutput::SyncOrders(resp)),
                Err(e) => Err(protocol_error(e)),
            },
        }
    }
}

/// Wraps a handler failure in its protocol code.
fn protocol_error(e: ToolError) -> (r: ProtocolError)
    ensures
        r.code != ErrorCode::MethodNotFound,
        e matches ToolError::InvalidParams(m) ==> r.code == ErrorCode::InvalidParams && r.message
            == m,
        e matches ToolError::Internal(m) ==> r.code == ErrorCode::InternalError && r.message == m,
        as_tool_error(r) == e,
{
    match e {
        ToolError::InvalidParams(m) => ProtocolError { code: ErrorCode::InvalidParams, message: m },
        ToolError::Internal(m) => ProtocolError { code: ErrorCode::InternalError, message: m },
    }
}

} // verus!
