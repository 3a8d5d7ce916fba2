//! Collections that a user starts: their requests, their progress and how they end.
use vstd::prelude::*;

use crate::error;
use crate::error::{Error, Result};
use crate::json;
use crate::json::{Json, JsonNumber, JsonView};
use crate::service::task_manager;
use crate::service::task_manager::{Task, TaskManager, TaskStatus, TaskType};
use crate::sidecar::collector::{CollectionRequest, CollectionStatus, CollectionSummary};
use crate::sidecar::protocol::CommandType;
use crate::sidecar::supervisor;
use crate::sidecar::supervisor::SidecarError;
use crate::text;

verus! {

/// A number of pages within its bounds.
pub open spec fn bounded_pages(max_pages: u32) -> u32 {
    if max_pages < 1 {
        1
    } else if max_pages > 1000 {
        1000
    } else {
        max_pages
    }
}

/// A number of pages within its bounds.
pub fn bounded_max_pages(max_pages: u32) -> (r: u32)
    ensures
        r == bounded_pages(max_pages),
{
    if max_pages < 1 {
        1
    } else if max_pages > 1000 {
        1000
    } else {
        max_pages
    }
}

/// A collection that is about to start: its task and its request.
#[derive(Debug)]
pub struct CollectionStart {
    pub task_type: TaskType,
    pub description: String,
    pub request: CollectionRequest,
}

fn page_count(max_pages: u32) -> (r: Json)
    ensures
        r@ == JsonView::Number(json::NumberView::Integer(bounded_pages(max_pages) as int)),
{
    Json::Number(JsonNumber::Unsigned(bounded_max_pages(max_pages) as u64))
}

/// Collects the posts of a user.
pub fn collect_user_posts(uid: i64, max_pages: u32) -> (r: CollectionStart)
    ensures
        r.task_type == TaskType::CollectUserPosts,
        r.description@ == "采集用户微博"@,
        r.request.command_type == CommandType::CollectUserPosts,
        r.request.stream@ == "user:"@ + text::signed_decimal(uid as int) + ":posts"@,
        r.request.payload@ == JsonView::Object(
            Map::empty().insert(
                "uid"@,
                JsonView::Text(text::signed_decimal(uid as int)),
            ).insert(
                "max_pages"@,
                JsonView::Number(json::NumberView::Integer(bounded_pages(max_pages) as int)),
            ),
        ),
{
    let id = text::i64_text(uid);
    let stream = text::join3("user:", id.as_str(), ":posts");
    let mut payload = Json::empty_object();
    payload.insert("uid", Json::Text(id));
    payload.insert("max_pages", page_count(max_pages));
    CollectionStart {
        task_type: TaskType::CollectUserPosts,
        description: "采集用户微博".to_owned(),
        request: CollectionRequest { command_type: CommandType::CollectUserPosts, stream, payload },
    }
}

/// Collects the first-level comments of a post.
pub fn collect_comments(post_id: i64, max_pages: u32) -> (r: CollectionStart)
    ensures
        r.task_type == TaskType::CollectComments,
        r.description@ == "采集微博评论"@,
        r.request.command_type == CommandType::CollectComments,
        r.request.stream@ == "post:"@ + text::signed_decimal(post_id as int) + ":comments"@,
        r.request.payload@ == JsonView::Object(
            Map::empty().insert(
                "post_id"@,
                JsonView::Text(text::signed_decimal(post_id as int)),
            ).insert(
                "max_pages"@,
                JsonView::Number(json::NumberView::Integer(bounded_pages(max_pages) as int)),
            ),
        ),
{
    let id = text::i64_text(post_id);
    let stream = text::join3("post:", id.as_str(), ":comments");
    let mut payload = Json::empty_object();
    payload.insert("post_id", Json::Text(id));
    payload.insert("max_pages", page_count(max_pages));
    CollectionStart {
        task_type: TaskType::CollectComments,
        description: "采集微博评论".to_owned(),
        request: CollectionRequest { command_type: CommandType::CollectComments, stream, payload },
    }
}

/// Collects the replies below a first-level comment.
pub fn collect_comment_replies(post_id: i64, root_comment_id: i64, max_pages: u32) -> (r:
    CollectionStart)
    ensures
        r.task_type == TaskType::CollectCommentReplies,
        r.description@ == "采集评论回复"@,
        r.request.command_type == CommandType::CollectCommentReplies,
        r.request.stream@ == "post:"@ + text::signed_decimal(post_id as int) + ":comment:"@
            + text::signed_decimal(root_comment_id as int) + ":replies"@,
        r.request.payload@ == JsonView::Object(
            Map::empty().insert(
                "post_id"@,
                JsonView::Text(text::signed_decimal(post_id as int)),
            ).insert(
                "root_comment_id"@,
                JsonView::Text(text::signed_decimal(root_comment_id as int)),
            ).insert(
                "max_pages"@,
                JsonView::Number(json::NumberView::Integer(bounded_pages(max_pages) as int)),
            ),
        ),
{
    let id = text::i64_text(post_id);
    let root = text::i64_text(root_comment_id);
    let mut stream = text::join3("post:", id.as_str(), ":comment:");
    stream.append(root.as_str());
    stream.append(":replies");
    let mut payload = Json::empty_object();
    payload.insert("post_id", Json::Text(id));
    payload.insert("root_comment_id", Json::Text(root));
    payload.insert("max_pages", page_count(max_pages));
    CollectionStart {
        task_type: TaskType::CollectCommentReplies,
        description: "采集评论回复".to_owned(),
        request: CollectionRequest {
            command_type: CommandType::CollectCommentReplies,
            stream,
            payload,
        },
    }
}

/// Publishes the progress of a collection. A total of zero is a total that is not known yet.
pub fn publish_collection_progress(
    task_manager: &mut TaskManager,
    task_id: u64,
    committed: u64,
    total: u64,
) -> (r: Result<()>)
    ensures
        task_manager::moves(
            *old(task_manager),
            *final(task_manager),
            r,
            task_manager::progressed_for(old(task_manager).current(), task_id, committed, total),
            task_manager::refusal_for(old(task_manager).current(), task_id, "update progress"@),
        ),
{
    task_manager.update_progress_for(task_id, committed, total)
}

/// What becomes of the task when its collection ends.
pub open spec fn task_status_after(status: CollectionStatus) -> TaskStatus {
    match status {
        CollectionStatus::Completed => TaskStatus::Completed,
        CollectionStatus::Stopped => TaskStatus::Cancelled,
        CollectionStatus::Cancelled => TaskStatus::Cancelled,
        CollectionStatus::Paused => TaskStatus::Paused,
        CollectionStatus::RateLimited => TaskStatus::Interrupted,
        CollectionStatus::Interrupted => TaskStatus::Interrupted,
        CollectionStatus::Shutdown => TaskStatus::Interrupted,
        CollectionStatus::Failed => TaskStatus::Failed,
    }
}

/// Whether the identified task was settled with a status and an error text, or, where it was not
/// active, nothing changed.
pub open spec fn settles(
    before: TaskManager,
    after: TaskManager,
    task_id: u64,
    status: TaskStatus,
    error: Option<Seq<char>>,
) -> bool {
    match task_manager::active(before.current(), task_id) {
        Some(t) => exists|e: Option<String>|
            {
                &&& #[trigger] text::opt_view(e) == error
                &&& task_manager::announces(before, after, Task { status, error: e, ..t })
            },
        None => after == before,
    }
}

/// Settles the task of a collection by how the collection ended. A failure is recorded with its
/// text. The task stays as it is when it is no longer the active one.
pub fn finish_collection_task(
    task_manager: &mut TaskManager,
    task_id: u64,
    status: CollectionStatus,
    error_message: Option<String>,
) -> (r: Result<()>)
    ensures
        r is Ok == (task_manager::active(old(task_manager).current(), task_id) is Some),
        settles(
            *old(task_manager),
            *final(task_manager),
            task_id,
            task_status_after(status),
            if status == CollectionStatus::Failed {
                Some(
                    match error_message {
                        Some(m) => m@,
                        None => "sidecar collection failed"@,
                    },
                )
            } else {
                None
            },
        ),
{
    proof {
        assert(text::opt_view(None) is None);
    }
    match status {
        CollectionStatus::Completed => task_manager.finish_for(task_id),
        CollectionStatus::Stopped => task_manager.cancel_for(task_id),
        CollectionStatus::Paused => task_manager.pause_for(task_id),
        CollectionStatus::Cancelled => task_manager.cancel_for(task_id),
        CollectionStatus::RateLimited => task_manager.interrupt_for(task_id),
        CollectionStatus::Interrupted => task_manager.interrupt_for(task_id),
        CollectionStatus::Shutdown => task_manager.interrupt_for(task_id),
        CollectionStatus::Failed => {
            let message = match error_message {
                Some(m) => m,
                None => "sidecar collection failed".to_owned(),
            };
            proof {
                assert(text::opt_view(Some(message)) == Some(message@));
            }
            task_manager.fail_for(task_id, message)
        },
    }
}

/// Marks the task of a collection as failed.
pub fn fail_collection_task(task_manager: &mut TaskManager, task_id: u64, message: String) -> (r:
    Result<()>)
    ensures
        task_manager::moves(
            *old(task_manager),
            *final(task_manager),
            r,
            task_manager::settled_for(
                old(task_manager).current(),
                task_id,
                TaskStatus::Failed,
                Some(message),
            ),
            task_manager::refusal_for(old(task_manager).current(), task_id, "fail"@),
        ),
{
    task_manager.fail_for(task_id, message)
}

/// How a collection ends whose sidecar could not be greeted: as a shutdown when the greeting was
/// cancelled, as a failure otherwise.
pub fn handshake_failure(error: &SidecarError) -> (r: Result<CollectionSummary>)
    ensures
        if *error is HandshakeCancelled {
            r matches Ok(summary) && summary.status == CollectionStatus::Shutdown
                && summary.fetched_count == 0 && summary.pages == 0 && summary.rate_limit is None
                && text::opt_view(summary.error) == Some(
                "application shutdown during sidecar handshake"@,
            )
        } else {
            r matches Err(e) && error::is_format_error(e, supervisor::sidecar_message(*error))
        },
{
    match error {
        SidecarError::HandshakeCancelled => Ok(
            CollectionSummary {
                status: CollectionStatus::Shutdown,
                fetched_count: 0,
                pages: 0,
                error: Some("application shutdown during sidecar handshake".to_owned()),
                rate_limit: None,
            },
        ),
        _ => Err(Error::FormatError(error.message())),
    }
}

/// Settles the task of a long-running request by its outcome.
pub fn handle_task_request(task_manager: &mut TaskManager, outcome: std::result::Result<(), String>) -> (r:
    Result<()>)
    ensures
        task_manager::moves(
            *old(task_manager),
            *final(task_manager),
            r,
            match outcome {
                Ok(_) => task_manager::moved(
                    old(task_manager).current(),
                    TaskStatus::InProgress,
                    TaskStatus::Completed,
                ),
                Err(why) => task_manager::failed(old(task_manager).current(), why),
            },
            if outcome is Ok {
                "Cannot finish task: no task is in progress."@
            } else {
                "Cannot fail task: no task is in progress."@
            },
        ),
{
    match outcome {
        Ok(_) => task_manager.finish(),
        Err(why) => task_manager.fail(why),
    }
}

} // verus!
