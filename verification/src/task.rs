//! The way of one post from the listing to its directory.
//!
//! A `PostTask` holds where a post stands. It hands out one `Action` at a
//! time; the caller performs it and reports what happened as an `Event`,
//! which moves the task on. Nothing here touches the network or the disk.

use crate::commit::{
    content_text, download_dir, download_root, final_dir, file_views, get_prefix, kind_of,
    media_files, plan_commit, post_dir_exists, post_kind, post_prefix, rfc3339_day, scratch_dir,
    stem_among, CommitPlan, DAY_LAYOUT,
};
use crate::config::ArtistConfig;
use crate::errors::{status_is_success, DownloadErr};
use crate::outside::format_rfc3339;
use crate::post::{DownloadOk, Post};
use crate::urls::{detail_address, detail_url, page_url, post_url};
use vstd::pervasive::unreached;
use vstd::prelude::*;
use vstd::string::*;

verus! {

/// What the caller is asked to do next.
#[derive(Debug, PartialEq)]
pub enum Action {
    /// Look whether `dir` is there, and list the names that stand in `root`.
    /// Answered by `Event::Probed`.
    Probe { dir: String, root: String },
    /// Alone at the terminal, show `prompt` and read one line. Answered by
    /// `Event::Password`, or by `Event::Failed` where no line could be read.
    AskPassword { prompt: String },
    /// Ask the platform for the post at `url`, with the password in the
    /// request where there is one. Answered by `Event::Status`, or by
    /// `Event::Failed` where no answer came.
    Request { url: String, password: Option<String> },
    /// Read the post that the answer holds. Answered by `Event::Body`, or by
    /// `Event::Failed`.
    ReadBody,
    /// Remove what stands at `temp_dir` and make an empty directory there.
    /// Answered by `Event::Done`.
    PrepareScratch { temp_dir: String },
    /// Fetch the file at `url` without credentials and store it at `path`.
    /// Answered by `Event::Done` or `Event::Failed`.
    Fetch { url: String, path: String },
    /// Write `text` to a new file at `path`. Answered by `Event::Done` or
    /// `Event::Failed`.
    WriteText { path: String, text: String },
    /// Rename the directory `from` to `to`. Answered by `Event::Done` or
    /// `Event::Failed`.
    Promote { from: String, to: String },
}

/// What the caller reports back.
#[derive(Debug, PartialEq)]
pub enum Event {
    Probed { found: bool, names: Vec<String> },
    Password(String),
    Status(u16),
    Body(Post),
    Done,
    Failed(DownloadErr),
}

/// How far the storing of a post has come: which action is under way.
#[derive(Debug, Clone, Copy, PartialEq, Eq, Structural)]
pub enum Stage {
    Preparing,
    /// The file at this place of the plan is being fetched.
    Fetching(usize),
    Writing,
    Promoting,
}

/// Where a post stands.
#[derive(Debug, PartialEq)]
pub enum PostTask {
    /// The disk is asked whether the post is stored already.
    Probing { post: Post, root: String, prefix: String },
    /// The user is asked for the password of the post.
    NeedsAuth { post: Post, root: String, prefix: String },
    /// The platform is asked for the post in full.
    Requesting { post: Post, root: String, prefix: String, url: String },
    /// The answer of the platform is read.
    Reading { root: String, prefix: String },
    /// The post is written to its scratch directory.
    Committing { post: Post, plan: CommitPlan, stage: Stage },
}

/// What a move of a task gives: the task with the next action, or the end.
#[derive(Debug, PartialEq)]
pub enum Step {
    Continue(PostTask, Action),
    Finished(Result<DownloadOk, DownloadErr>),
}

/// The line that asks for the password of a post.
pub open spec fn prompt_text(post: &Post) -> Seq<char> {
    "Password required for "@ + post_url(post.community.name@, post.id as int) + ":"@
}

/// `plan` stores `post` under `root` in the directory named `prefix`.
pub open spec fn plan_for(plan: &CommitPlan, post: &Post, root: Seq<char>, prefix: Seq<char>) -> bool {
    &&& plan.dir@ == final_dir(root, prefix)
    &&& plan.temp_dir@ == scratch_dir(root, prefix)
    &&& file_views(plan.media@) == media_files(post, scratch_dir(root, prefix), prefix)
    &&& plan.content_path@ == scratch_dir(root, prefix) + "/"@ + prefix + "-content.txt"@
    &&& plan.content@ == content_text(post)
}

/// The place of a stage among the actions that store a post with `n` files:
/// the scratch directory first, then the files, the text, and the renaming.
pub open spec fn stage_number(stage: Stage, n: int) -> int {
    match stage {
        Stage::Preparing => 0,
        Stage::Fetching(k) => 1 + k,
        Stage::Writing => n + 1,
        Stage::Promoting => n + 2,
    }
}

/// The stage at the place `k`.
pub open spec fn stage_at(k: int, n: int) -> Stage {
    if k <= 0 {
        Stage::Preparing
    } else if k <= n {
        Stage::Fetching((k - 1) as usize)
    } else if k == n + 1 {
        Stage::Writing
    } else {
        Stage::Promoting
    }
}

/// `action` is the `k`-th of the actions that carry out `plan`.
pub open spec fn is_commit_action(plan: &CommitPlan, k: int, action: Action) -> bool {
    let n = plan.media@.len() as int;
    if k == 0 {
        action matches Action::PrepareScratch { temp_dir } && temp_dir@ == plan.temp_dir@
    } else if 1 <= k <= n {
        action matches Action::Fetch { url, path } && url@ == plan.media@[k - 1].url@ && path@
            == plan.media@[k - 1].path@
    } else if k == n + 1 {
        action matches Action::WriteText { path, text } && path@ == plan.content_path@ && text@
            == plan.content@
    } else {
        k == n + 2 && (action matches Action::Promote { from, to } && from@ == plan.temp_dir@
            && to@ == plan.dir@)
    }
}

/// The move `r` starts the storing of `post` under `root` in the directory
/// named `prefix`: a plan for the post is made, and the scratch directory is
/// asked for.
pub open spec fn commit_begins(post: Post, root: Seq<char>, prefix: Seq<char>, r: Step) -> bool {
    r matches Step::Continue(PostTask::Committing { post: p, plan, stage }, action) && p == post
        && plan_for(&plan, &post, root, prefix) && stage == Stage::Preparing && is_commit_action(
        &plan,
        0,
        action,
    )
}

impl PostTask {
    /// A task that stores a post fetches only files of its plan, and the
    /// plan is one that fits into memory.
    pub open spec fn wf(&self) -> bool {
        match self {
            PostTask::Committing { post, plan, stage } => plan.media@.len() <= usize::MAX
                && match stage {
                Stage::Fetching(k) => k < plan.media@.len(),
                _ => true,
            },
            _ => true,
        }
    }

    /// The events that answer the action under way.
    pub open spec fn expects(&self, event: &Event) -> bool {
        match self {
            PostTask::Probing { .. } => event is Probed,
            PostTask::NeedsAuth { .. } => event is Password || event is Failed,
            PostTask::Requesting { .. } => event is Status || event is Failed,
            PostTask::Reading { .. } => event is Body || event is Failed,
            PostTask::Committing { .. } => event is Done || event is Failed,
        }
    }

    /// The move `r` is the first of the work on `post`, a post of a creator
    /// configured by `config`, with the prefix `prefix`: a post of no known
    /// type fails at once, for any other the disk is asked whether its
    /// directory is there.
    pub open spec fn begins(post: Post, config: &ArtistConfig, prefix: Seq<char>, r: Step) -> bool {
        match kind_of(post.post_type@) {
            None => r matches Step::Finished(Err(DownloadErr::ParsePostTypeErr(tag))) && tag@
                == post.post_type@,
            Some(kind) => r matches Step::Continue(
                PostTask::Probing { post: p, root, prefix: pf },
                Action::Probe { dir, root: asked },
            ) && p == post && root@ == download_root(config, kind) && pf@ == prefix && dir@
                == final_dir(root@, prefix) && asked@ == root@,
        }
    }

    /// The move `r` is the one that the task makes on `event`.
    pub open spec fn follows(self, event: Event, r: Step) -> bool {
        match self {
            PostTask::Probing { post, root, prefix } => match event {
                Event::Probed { found, names } => if found || stem_among(names@, prefix@) {
                    r == Step::Finished(Ok(DownloadOk::Skipped(post)))
                } else if post.locked {
                    r matches Step::Continue(
                        PostTask::NeedsAuth { post: p, root: ro, prefix: pf },
                        Action::AskPassword { prompt },
                    ) && p == post && ro == root && pf == prefix && prompt@ == prompt_text(&post)
                } else if post.needs_refetch() {
                    r matches Step::Continue(
                        PostTask::Requesting { post: p, root: ro, prefix: pf, url },
                        Action::Request { url: asked, password },
                    ) && p == post && ro == root && pf == prefix && url@ == detail_url(
                        post.community.id as int,
                        post.id as int,
                    ) && asked@ == url@ && password.is_none()
                } else {
                    commit_begins(post, root@, prefix@, r)
                },
                _ => false,
            },
            PostTask::NeedsAuth { post, root, prefix } => match event {
                Event::Password(line) => r matches Step::Continue(
                    PostTask::Requesting { post: p, root: ro, prefix: pf, url },
                    Action::Request { url: asked, password },
                ) && p == post && ro == root && pf == prefix && url@ == detail_url(
                    post.community.id as int,
                    post.id as int,
                ) && asked@ == url@ && password == Some(line),
                Event::Failed(e) => r == Step::Finished(Err(e)),
                _ => false,
            },
            PostTask::Requesting { post, root, prefix, url } => match event {
                Event::Status(code) => if 200 <= code < 300 {
                    r matches Step::Continue(
                        PostTask::Reading { root: ro, prefix: pf },
                        Action::ReadBody,
                    ) && ro == root && pf == prefix
                } else {
                    r == Step::Finished(Err(DownloadErr::ResponseErr(url, post, code)))
                },
                Event::Failed(e) => r == Step::Finished(Err(e)),
                _ => false,
            },
            PostTask::Reading { root, prefix } => match event {
                Event::Body(fetched) => commit_begins(fetched, root@, prefix@, r),
                Event::Failed(e) => r == Step::Finished(Err(e)),
                _ => false,
            },
            PostTask::Committing { post, plan, stage } => {
                let n = plan.media@.len() as int;
                let k = stage_number(stage, n);
                if event is Done || (event is Failed && stage == Stage::Preparing) {
                    if k < n + 2 {
                        r matches Step::Continue(
                            PostTask::Committing { post: p, plan: pl, stage: s },
                            action,
                        ) && p == post && pl == plan && s == stage_at(k + 1, n)
                            && is_commit_action(&plan, k + 1, action)
                    } else {
                        r == Step::Finished(Ok(DownloadOk::Downloaded(post)))
                    }
                } else {
                    event matches Event::Failed(e) && r == Step::Finished(Err(e))
                }
            },
        }
    }

    /// Starts the storing of a post under `root` in the directory named
    /// `prefix`.
    fn begin_commit(post: Post, root: &str, prefix: &str) -> (r: Step)
        ensures
            commit_begins(post, root@, prefix@, r),
            r matches Step::Continue(task, _) && task.wf(),
    {
        let plan = plan_commit(&post, root, prefix);
        let temp_dir = plan.temp_dir.clone();
        let n = plan.media.len();
        assert(plan.media@.len() <= usize::MAX);
        Step::Continue(
            PostTask::Committing { post, plan, stage: Stage::Preparing },
            Action::PrepareScratch { temp_dir },
        )
    }

    /// Goes on to the action that follows the stage `stage` of a plan.
    fn advance(post: Post, plan: CommitPlan, stage: Stage) -> (r: Step)
        requires
            stage matches Stage::Fetching(k) ==> k < plan.media@.len(),
        ensures
            (PostTask::Committing { post, plan, stage }).follows(Event::Done, r),
            r matches Step::Continue(task, _) ==> task.wf(),
    {
        let n = plan.media.len();
        let next = match stage {
            Stage::Preparing => if n > 0 {
                Stage::Fetching(0)
            } else {
                Stage::Writing
            },
            Stage::Fetching(k) => if k + 1 < n {
                Stage::Fetching(k + 1)
            } else {
                Stage::Writing
            },
            Stage::Writing => Stage::Promoting,
            Stage::Promoting => {
                return Step::Finished(Ok(DownloadOk::Downloaded(post)));
            },
        };
        let action = match next {
            Stage::Fetching(k) => Action::Fetch {
                url: plan.media[k].url.clone(),
                path: plan.media[k].path.clone(),
            },
            Stage::Writing => Action::WriteText {
                path: plan.content_path.clone(),
                text: plan.content.clone(),
            },
            _ => Action::Promote { from: plan.temp_dir.clone(), to: plan.dir.clone() },
        };
        Step::Continue(PostTask::Committing { post, plan, stage: next }, action)
    }

    /// Takes up the work on a post of a creator configured by `config`. The
    /// post's date of creation has to be an RFC 3339 timestamp.
    pub fn start(post: Post, config: &ArtistConfig) -> (r: Step)
        requires
            rfc3339_day(post.created_at@).is_some(),
        ensures
            PostTask::begins(post, config, post_prefix(&post).unwrap(), r),
            r matches Step::Continue(task, _) ==> task.wf(),
    {
        let prefix = get_prefix(&post);
        match post_kind(post.post_type.as_str()) {
            Err(e) => Step::Finished(Err(e)),
            Ok(kind) => {
                let root = download_dir(config, kind);
                let mut dir = root.clone();
                dir.append("/");
                dir.append(prefix.as_str());
                let asked = root.clone();
                Step::Continue(
                    PostTask::Probing { post, root, prefix },
                    Action::Probe { dir, root: asked },
                )
            },
        }
    }

    /// Takes up the work on a post, as `start` does; `None` where the post's
    /// date of creation is no RFC 3339 timestamp.
    pub fn try_start(post: Post, config: &ArtistConfig) -> (r: Option<Step>)
        ensures
            match r {
                Some(step) => post_prefix(&post).is_some() && PostTask::begins(
                    post,
                    config,
                    post_prefix(&post).unwrap(),
                    step,
                ) && (step matches Step::Continue(task, _) ==> task.wf()),
                None => post_prefix(&post).is_none(),
            },
    {
        match format_rfc3339(post.created_at.as_str(), DAY_LAYOUT) {
            Some(_) => Some(PostTask::start(post, config)),
            None => None,
        }
    }

    /// Tells whether the task is one that `step` takes.
    pub fn is_valid(&self) -> (r: bool)
        ensures
            r == self.wf(),
    {
        match self {
            PostTask::Committing { post, plan, stage } => {
                let n = plan.media.len();
                match stage {
                    Stage::Fetching(k) => *k < n,
                    _ => true,
                }
            },
            _ => true,
        }
    }

    /// Tells whether `event` answers the action under way.
    pub fn awaits(&self, event: &Event) -> (r: bool)
        ensures
            r == self.expects(event),
    {
        match self {
            PostTask::Probing { .. } => match event {
                Event::Probed { .. } => true,
                _ => false,
            },
            PostTask::NeedsAuth { .. } => match event {
                Event::Password(_) => true,
                Event::Failed(_) => true,
                _ => false,
            },
            PostTask::Requesting { .. } => match event {
                Event::Status(_) => true,
                Event::Failed(_) => true,
                _ => false,
            },
            PostTask::Reading { .. } => match event {
                Event::Body(_) => true,
                Event::Failed(_) => true,
                _ => false,
            },
            PostTask::Committing { .. } => match event {
                Event::Done => true,
                Event::Failed(_) => true,
                _ => false,
            },
        }
    }

    /// Moves the task on by the event that answers its action.
    pub fn step(self, event: Event) -> (r: Step)
        requires
            self.wf(),
            self.expects(&event),
        ensures
            self.follows(event, r),
            r matches Step::Continue(task, _) ==> task.wf(),
    {
        match self {
            PostTask::Probing { post, root, prefix } => match event {
                Event::Probed { found, names } => {
                    if found || post_dir_exists(&names, prefix.as_str()) {
                        Step::Finished(Ok(DownloadOk::Skipped(post)))
                    } else if post.locked {
                        let shown = page_url(post.community.name.as_str(), post.id);
                        let mut prompt = String::from_str("Password required for ");
                        prompt.append(shown.as_str());
                        prompt.append(":");
                        Step::Continue(
                            PostTask::NeedsAuth { post, root, prefix },
                            Action::AskPassword { prompt },
                        )
                    } else if post.requires_refetch() {
                        let url = detail_address(&post);
                        let asked = url.clone();
                        Step::Continue(
                            PostTask::Requesting { post, root, prefix, url },
                            Action::Request { url: asked, password: None },
                        )
                    } else {
                        PostTask::begin_commit(post, root.as_str(), prefix.as_str())
                    }
                },
                _ => unreached(),
            },
            PostTask::NeedsAuth { post, root, prefix } => match event {
                Event::Password(line) => {
                    let url = detail_address(&post);
                    let asked = url.clone();
                    Step::Continue(
                        PostTask::Requesting { post, root, prefix, url },
                        Action::Request { url: asked, password: Some(line) },
                    )
                },
                Event::Failed(e) => Step::Finished(Err(e)),
                _ => unreached(),
            },
            PostTask::Requesting { post, root, prefix, url } => match event {
                Event::Status(code) => {
                    if status_is_success(code) {
                        Step::Continue(PostTask::Reading { root, prefix }, Action::ReadBody)
                    } else {
                        Step::Finished(Err(DownloadErr::ResponseErr(url, post, code)))
                    }
                },
                Event::Failed(e) => Step::Finished(Err(e)),
                _ => unreached(),
            },
            PostTask::Reading { root, prefix } => match event {
                Event::Body(fetched) => PostTask::begin_commit(
                    fetched,
                    root.as_str(),
                    prefix.as_str(),
                ),
                Event::Failed(e) => Step::Finished(Err(e)),
                _ => unreached(),
            },
            PostTask::Committing { post, plan, stage } => match event {
                Event::Done => PostTask::advance(post, plan, stage),
                Event::Failed(e) => match stage {
                    Stage::Preparing => PostTask::advance(post, plan, stage),
                    _ => Step::Finished(Err(e)),
                },
                _ => unreached(),
            },
        }
    }
}

impl Action {
    /// The action sends something over the network.
    pub open spec fn touches_network(&self) -> bool {
        self is Request || self is ReadBody || self is Fetch
    }

    /// The action changes what is on the disk.
    pub open spec fn writes_disk(&self) -> bool {
        self is PrepareScratch || self is Fetch || self is WriteText || self is Promote
    }
}

/// `steps` are the moves of a task from `task` on to its end, where every
/// action succeeds.
pub open spec fn succeeds_through(task: PostTask, steps: Seq<Step>) -> bool
    decreases steps.len(),
{
    steps.len() > 0 && task.follows(Event::Done, steps[0]) && match steps[0] {
        Step::Continue(next, _) => succeeds_through(next, steps.drop_first()),
        Step::Finished(_) => steps.len() == 1,
    }
}

/// A post whose directory is there already, under its own name or under
/// another that names the same day and id, is skipped. The task ends with the
/// post as it came, and all it asked for before is a look at the disk: nothing
/// was sent over the network and nothing was written.
pub proof fn lemma_stored_post_is_skipped(
    post: Post,
    config: &ArtistConfig,
    prefix: Seq<char>,
    first: Step,
    found: bool,
    names: Vec<String>,
    last: Step,
)
    requires
        PostTask::begins(post, config, prefix, first),
        first is Continue,
        found || stem_among(names@, prefix),
        first->Continue_0.follows(Event::Probed { found, names }, last),
    ensures
        first->Continue_1 is Probe,
        !first->Continue_1.touches_network(),
        !first->Continue_1.writes_disk(),
        last == Step::Finished(Ok(DownloadOk::Skipped(post))),
{
}

/// A task ends with a stored post only where the renaming of the scratch
/// directory succeeded, and the post it ends with is the one it wrote.
pub proof fn lemma_downloaded_only_after_renaming(task: PostTask, event: Event, r: Step)
    requires
        task.wf(),
        task.follows(event, r),
        r matches Step::Finished(Ok(DownloadOk::Downloaded(_))),
    ensures
        task matches PostTask::Committing { post, plan, stage } && stage == Stage::Promoting && r
            == Step::Finished(Ok(DownloadOk::Downloaded(post))),
        event is Done,
{
}

/// The actions that carry out a plan for a post are, in this order: the
/// making of the scratch directory, one fetch for each photo and each video
/// whose address is known, the writing of one text, and the renaming of the
/// scratch directory to the final one.
pub proof fn lemma_actions_of_a_plan(
    plan: &CommitPlan,
    post: &Post,
    root: Seq<char>,
    prefix: Seq<char>,
    k: int,
    action: Action,
)
    requires
        plan_for(plan, post, root, prefix),
        is_commit_action(plan, k, action),
    ensures
        plan.media@.len() == post.photo_list().len() + crate::commit::resolved_videos(
            post.video_list(),
            post.video_list().len() as int,
        ),
        0 <= k <= plan.media@.len() + 2,
        action is PrepareScratch <==> k == 0,
        action is Fetch <==> 1 <= k <= plan.media@.len(),
        action is WriteText <==> k == plan.media@.len() + 1,
        action is Promote <==> k == plan.media@.len() + 2,
        action matches Action::Promote { from, to } ==> from@ == scratch_dir(root, prefix) && to@
            == final_dir(root, prefix),
{
    crate::commit::lemma_one_file_for_each_address(post, scratch_dir(root, prefix), prefix);
    assert(file_views(plan.media@).len() == plan.media@.len());
}

/// Where every action succeeds, the storing of a post runs through all the
/// actions of its plan that are still to come, each once and in order, and
/// ends with the post stored.
pub proof fn lemma_commit_runs_through_the_plan(
    post: Post,
    plan: CommitPlan,
    stage: Stage,
    steps: Seq<Step>,
)
    requires
        (PostTask::Committing { post, plan, stage }).wf(),
        succeeds_through(PostTask::Committing { post, plan, stage }, steps),
    ensures
        steps.len() == plan.media@.len() + 3 - stage_number(stage, plan.media@.len() as int),
        steps.last() == Step::Finished(Ok(DownloadOk::Downloaded(post))),
        forall|j: int|
            0 <= j < steps.len() - 1 ==> (#[trigger] steps[j] matches Step::Continue(_, action)
                && is_commit_action(
                &plan,
                stage_number(stage, plan.media@.len() as int) + 1 + j,
                action,
            )),
    decreases steps.len(),
{
    let n = plan.media@.len() as int;
    let k = stage_number(stage, n);
    if k < n + 2 {
        let next = stage_at(k + 1, n);
        let rest = steps.drop_first();
        assert(stage_number(next, n) == k + 1);
        lemma_commit_runs_through_the_plan(post, plan, next, rest);
        assert(steps.last() == rest.last());
        assert forall|j: int| 0 <= j < steps.len() - 1 implies (#[trigger] steps[j] matches Step::Continue(
            _,
            action,
        ) && is_commit_action(&plan, k + 1 + j, action)) by {
            if j > 0 {
                assert(steps[j] == rest[j - 1]);
            }
        }
    }
}

/// A refused password is told apart from other failures: where the platform
/// answers the request for a locked post with a status that is no success,
/// the task ends with a failure that counts as a wrong password and holds the
/// post. The task ends there: no directory is made for the post.
pub proof fn lemma_refused_password_ends_the_task(
    post: Post,
    root: String,
    prefix: String,
    url: String,
    code: u16,
    r: Step,
)
    requires
        post.locked,
        !(200 <= code < 300),
        (PostTask::Requesting { post, root, prefix, url }).follows(Event::Status(code), r),
    ensures
        r matches Step::Finished(Err(e)) && e.is_wrong_password() && e
            == DownloadErr::ResponseErr(url, post, code),
{
}

/// Once the platform has answered with the full post, it is that post which
/// is stored, under the name that the listed post gave: the plan holds its
/// files and its text, and where every action succeeds the task ends with it.
pub proof fn lemma_fetched_post_replaces_listed_post(
    root: String,
    prefix: String,
    fetched: Post,
    first: Step,
    steps: Seq<Step>,
)
    requires
        (PostTask::Reading { root, prefix }).follows(Event::Body(fetched), first),
        first matches Step::Continue(task, _) && task.wf() && succeeds_through(task, steps),
    ensures
        first matches Step::Continue(PostTask::Committing { post, plan, stage }, _) && post
            == fetched && plan_for(&plan, &fetched, root@, prefix@),
        steps.last() == Step::Finished(Ok(DownloadOk::Downloaded(fetched))),
{
    match first {
        Step::Continue(PostTask::Committing { post, plan, stage }, _) => {
            lemma_commit_runs_through_the_plan(post, plan, stage, steps);
        },
        _ => {},
    }
}

} // verus!
