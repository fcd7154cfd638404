//! The run itself: look up template and folder, copy, patch the date, render,
//! keep the bytes. An expired access token is renewed once and the lookup
//! made again; every other failure ends the run.
//!
//! The pipeline decides and its driver acts: each step takes what happened
//! outside and answers with what is to be done next.

use crate::auth::{accept_refresh, refresh_call, refresh_outcome, refresh_request};
use crate::config::{Config, ConfigView, PipelineRequest, PipelineRequestView};
use crate::credential::{Credential, CredentialView};
use crate::document::{ArtifactView, DocumentRef, DocumentView, InvoiceArtifact};
use crate::gateway::{
    copy_call, copy_request, export_call, export_request, first_match, list_call, list_request,
    patch_call, patch_request, resolve_match,
};
use crate::outcome::{result_view, settle, settled, Failure, Reply};
use crate::request::{Request, RequestView};
use crate::wire::lemma_bytes_deep_view;
use vstd::prelude::*;

verus! {

/// How often a run renews its access token.
pub const MAX_REFRESHES: u8 = 1;

/// Where a run stands.
#[derive(Clone, Copy, Debug, PartialEq, Eq, Structural)]
pub enum Stage {
    /// The two lookups are out.
    Lookup,
    /// The renewal is with the token endpoint.
    Refreshing,
    /// The renewed credential is being written to the store.
    SavingCredential,
    /// The copy is being made.
    Copying,
    /// The date is being written into the copy.
    Patching,
    /// The copy is being rendered.
    Exporting,
    /// The rendered bytes are being written to the local sink.
    Persisting,
    /// The artifact was handed out.
    Done,
    /// The run failed.
    Failed,
}

/// A run under way.
#[derive(Clone, Debug, PartialEq, Eq)]
pub struct Pipeline {
    pub config: Config,
    pub request: PipelineRequest,
    /// The credential in use; replaced when it is renewed.
    pub credential: Credential,
    pub stage: Stage,
    /// How many renewals the run has begun.
    pub refreshes: u8,
    /// What the lookup of the template came to, once it is back.
    pub template: Option<Result<DocumentRef, Failure>>,
    /// What the lookup of the folder came to, once it is back.
    pub folder: Option<Result<DocumentRef, Failure>>,
    /// The copy, once it is made.
    pub copy: Option<DocumentRef>,
    /// The rendered bytes, once they are there.
    pub rendered: Option<Vec<u8>>,
}

/// A run as plain values.
pub struct PipelineView {
    pub config: ConfigView,
    pub request: PipelineRequestView,
    pub credential: CredentialView,
    pub stage: Stage,
    pub refreshes: u8,
    pub template: Option<Result<DocumentView, Failure>>,
    pub folder: Option<Result<DocumentView, Failure>>,
    pub copy: Option<DocumentView>,
    pub rendered: Option<Seq<u8>>,
}

/// What a lookup came to, as plain values.
pub open spec fn found_view(found: Option<Result<DocumentRef, Failure>>) -> Option<
    Result<DocumentView, Failure>,
> {
    match found {
        Some(r) => Some(result_view(r)),
        None => None,
    }
}

impl View for Pipeline {
    type V = PipelineView;

    open spec fn view(&self) -> PipelineView {
        PipelineView {
            config: self.config@,
            request: self.request@,
            credential: self.credential@,
            stage: self.stage,
            refreshes: self.refreshes,
            template: found_view(self.template),
            folder: found_view(self.folder),
            copy: self.copy.deep_view(),
            rendered: self.rendered.deep_view(),
        }
    }
}

/// What happened outside since the last action.
#[derive(Debug, PartialEq, Eq)]
pub enum Event {
    /// The list call for the template is back.
    TemplateListed(Reply<Vec<DocumentRef>>),
    /// The list call for the folder is back.
    FolderListed(Reply<Vec<DocumentRef>>),
    /// The token endpoint replied to the renewal.
    Refreshed(Reply<Credential>),
    /// The credential store was written (`true`) or refused the write.
    CredentialSaved(bool),
    /// The copy call is back.
    Copied(Reply<DocumentRef>),
    /// The cell update is back.
    Patched(Reply<()>),
    /// The export is back.
    Exported(Reply<Vec<u8>>),
    /// The local sink took the bytes (`true`) or refused them.
    Persisted(bool),
}

/// An event as plain values.
pub enum EventView {
    TemplateListed(Reply<Seq<DocumentView>>),
    FolderListed(Reply<Seq<DocumentView>>),
    Refreshed(Reply<CredentialView>),
    CredentialSaved(bool),
    Copied(Reply<DocumentView>),
    Patched(Reply<()>),
    Exported(Reply<Seq<u8>>),
    Persisted(bool),
}

impl View for Event {
    type V = EventView;

    open spec fn view(&self) -> EventView {
        match self {
            Event::TemplateListed(reply) => EventView::TemplateListed(reply.deep_view()),
            Event::FolderListed(reply) => EventView::FolderListed(reply.deep_view()),
            Event::Refreshed(reply) => EventView::Refreshed(reply.deep_view()),
            Event::CredentialSaved(written) => EventView::CredentialSaved(*written),
            Event::Copied(reply) => EventView::Copied(reply.deep_view()),
            Event::Patched(reply) => EventView::Patched(reply.deep_view()),
            Event::Exported(reply) => EventView::Exported(reply.deep_view()),
            Event::Persisted(written) => EventView::Persisted(*written),
        }
    }
}

/// What is to be done next.
#[derive(Clone, Debug, PartialEq, Eq)]
pub enum Action {
    /// Send both list calls without waiting for one another, and report each
    /// reply as it comes.
    Lookup { template: Request, folder: Request },
    /// Nothing new: the other list call is still out.
    Wait,
    /// Send this renewal to the token endpoint.
    Refresh(Request),
    /// Write this credential to the store.
    SaveCredential(Credential),
    /// Send this copy call.
    Copy(Request),
    /// Send this cell update.
    Patch(Request),
    /// Send this export.
    Export(Request),
    /// Write these bytes to the local sink under this name, flushed and
    /// synced, before reporting back.
    Persist { name: String, bytes: Vec<u8> },
    /// Done: this is the artifact.
    Done(InvoiceArtifact),
    /// Stop: the run failed so.
    Fail(Failure),
}

/// An action as plain values.
pub enum ActionView {
    Lookup { template: RequestView, folder: RequestView },
    Wait,
    Refresh(RequestView),
    SaveCredential(CredentialView),
    Copy(RequestView),
    Patch(RequestView),
    Export(RequestView),
    Persist { name: Seq<char>, bytes: Seq<u8> },
    Done(ArtifactView),
    Fail(Failure),
}

impl View for Action {
    type V = ActionView;

    open spec fn view(&self) -> ActionView {
        match self {
            Action::Lookup { template, folder } => ActionView::Lookup {
                template: template@,
                folder: folder@,
            },
            Action::Wait => ActionView::Wait,
            Action::Refresh(request) => ActionView::Refresh(request@),
            Action::SaveCredential(c) => ActionView::SaveCredential(c@),
            Action::Copy(request) => ActionView::Copy(request@),
            Action::Patch(request) => ActionView::Patch(request@),
            Action::Export(request) => ActionView::Export(request@),
            Action::Persist { name, bytes } => ActionView::Persist { name: name@, bytes: bytes@ },
            Action::Done(artifact) => ActionView::Done(artifact@),
            Action::Fail(e) => ActionView::Fail(*e),
        }
    }
}

impl PipelineView {
    /// The run at `stage`.
    pub open spec fn at(self, stage: Stage) -> PipelineView {
        PipelineView { stage, ..self }
    }

    /// The run having failed with `e`.
    pub open spec fn failing(self, e: Failure) -> (PipelineView, ActionView) {
        (self.at(Stage::Failed), ActionView::Fail(e))
    }

    /// The run sending out its two lookups.
    pub open spec fn looking_up(self) -> (PipelineView, ActionView) {
        let token = self.credential.access_token;
        match (list_call(token, self.request.template), list_call(token, self.request.folder)) {
            (Ok(template), Ok(folder)) => (
                PipelineView { stage: Stage::Lookup, template: None, folder: None, ..self },
                ActionView::Lookup { template, folder },
            ),
            (Err(e), _) => self.failing(e),
            (_, Err(e)) => self.failing(e),
        }
    }

    /// The run after a lookup failed with `e`: a renewal where the failure
    /// is one of authentication and the run has a renewal left, else the end.
    pub open spec fn after_lookup_failure(self, e: Failure) -> (PipelineView, ActionView) {
        if e.spec_is_authentication() && self.refreshes < MAX_REFRESHES {
            match refresh_call(self.config, self.credential.refresh_token) {
                Ok(request) => (
                    PipelineView {
                        stage: Stage::Refreshing,
                        refreshes: (self.refreshes + 1) as u8,
                        template: None,
                        folder: None,
                        ..self
                    },
                    ActionView::Refresh(request),
                ),
                Err(e2) => self.failing(e2),
            }
        } else {
            self.failing(e)
        }
    }

    /// The run once a lookup is back: it waits for the other, or judges
    /// both, the template first.
    pub open spec fn after_lookup(self) -> (PipelineView, ActionView) {
        match (self.template, self.folder) {
            (Some(Ok(template)), Some(Ok(folder))) => match copy_call(
                self.credential.access_token,
                template.id,
                folder.id,
                self.request.iso_date,
            ) {
                Ok(request) => (self.at(Stage::Copying), ActionView::Copy(request)),
                Err(e) => self.failing(e),
            },
            (Some(Err(e)), Some(_)) => self.after_lookup_failure(e),
            (Some(Ok(_)), Some(Err(e))) => self.after_lookup_failure(e),
            _ => (self, ActionView::Wait),
        }
    }
}

/// How a run begins: with the two lookups.
pub open spec fn pipeline_start(
    config: ConfigView,
    request: PipelineRequestView,
    credential: CredentialView,
) -> (PipelineView, ActionView) {
    PipelineView {
        config,
        request,
        credential,
        stage: Stage::Lookup,
        refreshes: 0,
        template: None,
        folder: None,
        copy: None,
        rendered: None,
    }.looking_up()
}

/// How a run goes on when `event` comes in.
pub open spec fn pipeline_step(run: PipelineView, event: EventView) -> (PipelineView, ActionView) {
    match (run.stage, event) {
        (Stage::Lookup, EventView::TemplateListed(reply)) => if run.template is None {
            PipelineView { template: Some(first_match(reply)), ..run }.after_lookup()
        } else {
            run.failing(Failure::OutOfTurn)
        },
        (Stage::Lookup, EventView::FolderListed(reply)) => if run.folder is None {
            PipelineView { folder: Some(first_match(reply)), ..run }.after_lookup()
        } else {
            run.failing(Failure::OutOfTurn)
        },
        (Stage::Refreshing, EventView::Refreshed(reply)) => match refresh_outcome(
            run.credential,
            reply,
        ) {
            Ok(c) => (
                PipelineView { credential: c, stage: Stage::SavingCredential, ..run },
                ActionView::SaveCredential(c),
            ),
            Err(e) => run.failing(e),
        },
        (Stage::SavingCredential, EventView::CredentialSaved(written)) => if written {
            run.looking_up()
        } else {
            run.failing(Failure::Storage)
        },
        (Stage::Copying, EventView::Copied(reply)) => match settled(reply) {
            Ok(copy) => match patch_call(
                run.credential.access_token,
                copy.id,
                run.request.display_date,
            ) {
                Ok(request) => (
                    PipelineView { copy: Some(copy), stage: Stage::Patching, ..run },
                    ActionView::Patch(request),
                ),
                Err(e) => run.failing(e),
            },
            Err(e) => run.failing(e),
        },
        (Stage::Patching, EventView::Patched(reply)) => match (settled(reply), run.copy) {
            (Ok(_), Some(copy)) => match export_call(run.credential.access_token, copy.id) {
                Ok(request) => (run.at(Stage::Exporting), ActionView::Export(request)),
                Err(e) => run.failing(e),
            },
            (Err(e), _) => run.failing(e),
            (Ok(_), None) => run.failing(Failure::OutOfTurn),
        },
        (Stage::Exporting, EventView::Exported(reply)) => match (settled(reply), run.copy) {
            (Ok(bytes), Some(copy)) => (
                PipelineView { rendered: Some(bytes), stage: Stage::Persisting, ..run },
                ActionView::Persist { name: copy.name, bytes },
            ),
            (Err(e), _) => run.failing(e),
            (Ok(_), None) => run.failing(Failure::OutOfTurn),
        },
        (Stage::Persisting, EventView::Persisted(written)) => match (run.copy, run.rendered) {
            (Some(copy), Some(bytes)) => if written {
                (
                    PipelineView { copy: None, rendered: None, stage: Stage::Done, ..run },
                    ActionView::Done(ArtifactView { bytes, document: copy }),
                )
            } else {
                run.failing(Failure::Storage)
            },
            _ => run.failing(Failure::OutOfTurn),
        },
        _ => run.failing(Failure::OutOfTurn),
    }
}

/// The run after `events` have come in, one after the other.
pub open spec fn run_after(run: PipelineView, events: Seq<EventView>) -> PipelineView
    decreases events.len(),
{
    if events.len() == 0 {
        run
    } else {
        pipeline_step(run_after(run, events.drop_last()), events.last()).0
    }
}

/// The action that the last of `events` was answered with.
pub open spec fn last_action(run: PipelineView, events: Seq<EventView>) -> ActionView
    recommends
        events.len() > 0,
{
    pipeline_step(run_after(run, events.drop_last()), events.last()).1
}

/// How many renewals the run asked for while `events` came in.
pub open spec fn renewals_asked(run: PipelineView, events: Seq<EventView>) -> nat
    decreases events.len(),
{
    if events.len() == 0 {
        0
    } else {
        renewals_asked(run, events.drop_last()) + if last_action(run, events) is Refresh {
            1nat
        } else {
            0nat
        }
    }
}

/// How many times the run sent its lookups out again while `events` came in.
pub open spec fn lookups_repeated(run: PipelineView, events: Seq<EventView>) -> nat
    decreases events.len(),
{
    if events.len() == 0 {
        0
    } else {
        lookups_repeated(run, events.drop_last()) + if last_action(run, events) is Lookup {
            1nat
        } else {
            0nat
        }
    }
}

/// The renewals that a run may still ask for.
pub open spec fn renewals_left(run: PipelineView) -> nat {
    if run.refreshes <= MAX_REFRESHES {
        (MAX_REFRESHES - run.refreshes) as nat
    } else {
        0
    }
}

/// The times that a run may still send its lookups out again.
pub open spec fn lookups_left(run: PipelineView) -> nat {
    renewals_left(run) + if run.stage == Stage::Refreshing || run.stage
        == Stage::SavingCredential {
        1nat
    } else {
        0nat
    }
}

/// Whichever of the two lookups comes back first, the run stands the same
/// once both are back, and answers the same.
pub proof fn lemma_lookup_order_is_irrelevant(
    run: PipelineView,
    template: Reply<Seq<DocumentView>>,
    folder: Reply<Seq<DocumentView>>,
)
    requires
        run.stage == Stage::Lookup,
        run.template is None,
        run.folder is None,
    ensures
        pipeline_step(
            pipeline_step(run, EventView::TemplateListed(template)).0,
            EventView::FolderListed(folder),
        ) == pipeline_step(
            pipeline_step(run, EventView::FolderListed(folder)).0,
            EventView::TemplateListed(template),
        ),
        pipeline_step(run, EventView::TemplateListed(template)).1 == ActionView::Wait,
        pipeline_step(run, EventView::FolderListed(folder)).1 == ActionView::Wait,
{
}

/// Where both lookups found a document, the run goes on to copy the first
/// match of the one into the first match of the other, and keeps the pair.
pub proof fn lemma_lookup_pair(
    run: PipelineView,
    template: Reply<Seq<DocumentView>>,
    folder: Reply<Seq<DocumentView>>,
    t: DocumentView,
    f: DocumentView,
)
    requires
        run.stage == Stage::Lookup,
        run.template is None,
        run.folder is None,
        first_match(template) == Ok::<DocumentView, Failure>(t),
        first_match(folder) == Ok::<DocumentView, Failure>(f),
    ensures
        ({
            let end = pipeline_step(
                pipeline_step(run, EventView::TemplateListed(template)).0,
                EventView::FolderListed(folder),
            );
            &&& end.0.template == Some(Ok::<DocumentView, Failure>(t))
            &&& end.0.folder == Some(Ok::<DocumentView, Failure>(f))
            &&& match copy_call(run.credential.access_token, t.id, f.id, run.request.iso_date) {
                Ok(request) => end.1 == ActionView::Copy(request) && end.0.stage
                    == Stage::Copying,
                Err(e) => end.1 == ActionView::Fail(e) && end.0.stage == Stage::Failed,
            }
        }),
{
}

/// A lookup that fails ends the run with that failure, unless the failure is
/// one of authentication and a renewal is left: then, and only then, the
/// run asks for a renewal.
pub proof fn lemma_only_authentication_is_retried(
    run: PipelineView,
    template: Reply<Seq<DocumentView>>,
    folder: Reply<Seq<DocumentView>>,
    e: Failure,
)
    requires
        run.stage == Stage::Lookup,
        run.template is None,
        run.folder is None,
        first_match(template) == Err::<DocumentView, Failure>(e) || (first_match(template) is Ok
            && first_match(folder) == Err::<DocumentView, Failure>(e)),
    ensures
        ({
            let end = pipeline_step(
                pipeline_step(run, EventView::TemplateListed(template)).0,
                EventView::FolderListed(folder),
            );
            if e == Failure::Remote(401) && run.refreshes < MAX_REFRESHES {
                match refresh_call(run.config, run.credential.refresh_token) {
                    Ok(request) => end.1 == ActionView::Refresh(request) && end.0.stage
                        == Stage::Refreshing && end.0.refreshes == run.refreshes + 1,
                    Err(e2) => end.1 == ActionView::Fail(e2) && end.0.stage == Stage::Failed,
                }
            } else {
                end.1 == ActionView::Fail(e) && end.0.stage == Stage::Failed
            }
        }),
{
}

/// A run that is done or has failed takes no further event.
pub proof fn lemma_ended_run_stays_ended(run: PipelineView, event: EventView)
    requires
        run.stage == Stage::Done || run.stage == Stage::Failed,
    ensures
        pipeline_step(run, event) == run.failing(Failure::OutOfTurn),
{
}

/// One step uses up what it asks for: a renewal, a repeated lookup.
proof fn lemma_step_budget(run: PipelineView, event: EventView)
    ensures
        ({
            let next = pipeline_step(run, event);
            &&& renewals_left(next.0) + (if next.1 is Refresh {
                1nat
            } else {
                0nat
            }) <= renewals_left(run)
            &&& lookups_left(next.0) + (if next.1 is Lookup {
                1nat
            } else {
                0nat
            }) <= lookups_left(run)
        }),
{
}

/// Whatever comes in, a run asks for no more renewals than it has left, and
/// sends its lookups out again no more often than it renews.
pub proof fn lemma_retries_are_bounded(run: PipelineView, events: Seq<EventView>)
    ensures
        renewals_asked(run, events) + renewals_left(run_after(run, events)) <= renewals_left(run),
        lookups_repeated(run, events) + lookups_left(run_after(run, events)) <= lookups_left(
            run,
        ),
    decreases events.len(),
{
    if events.len() > 0 {
        lemma_retries_are_bounded(run, events.drop_last());
        lemma_step_budget(run_after(run, events.drop_last()), events.last());
    }
}

/// From its start to its end a run renews its access token at most
/// `MAX_REFRESHES` times, and looks up again at most as often.
pub proof fn lemma_run_retries_at_most_once(
    config: ConfigView,
    request: PipelineRequestView,
    credential: CredentialView,
    events: Seq<EventView>,
)
    ensures
        renewals_asked(pipeline_start(config, request, credential).0, events) <= MAX_REFRESHES,
        lookups_repeated(pipeline_start(config, request, credential).0, events)
            <= MAX_REFRESHES,
{
    lemma_retries_are_bounded(pipeline_start(config, request, credential).0, events);
}

/// The bytes of the artifact are the bytes that were exported, and the
/// bytes that the local sink was given before.
pub proof fn lemma_artifact_is_what_was_persisted(
    run: PipelineView,
    reply: Reply<Seq<u8>>,
    bytes: Seq<u8>,
    copy: DocumentView,
)
    requires
        run.stage == Stage::Exporting,
        run.copy == Some(copy),
        settled(reply) == Ok::<Seq<u8>, Failure>(bytes),
    ensures
        ({
            let written = pipeline_step(run, EventView::Exported(reply));
            let end = pipeline_step(written.0, EventView::Persisted(true));
            &&& written.1 == ActionView::Persist { name: copy.name, bytes }
            &&& end.1 == ActionView::Done(ArtifactView { bytes, document: copy })
            &&& end.0.stage == Stage::Done
        }),
{
}

impl Pipeline {
    /// The run having failed with `e`.
    fn failing(self, e: Failure) -> (r: (Pipeline, Action))
        ensures
            (r.0@, r.1@) == self@.failing(e),
    {
        let mut run = self;
        run.stage = Stage::Failed;
        (run, Action::Fail(e))
    }

    /// The run sending out its two lookups.
    fn looking_up(self) -> (r: (Pipeline, Action))
        ensures
            (r.0@, r.1@) == self@.looking_up(),
    {
        let template = list_request(self.credential.access_token.as_str(), &self.request.template);
        let folder = list_request(self.credential.access_token.as_str(), &self.request.folder);
        match template {
            Ok(template) => match folder {
                Ok(folder) => {
                    let mut run = self;
                    run.stage = Stage::Lookup;
                    run.template = None;
                    run.folder = None;
                    (run, Action::Lookup { template, folder })
                },
                Err(e) => self.failing(e),
            },
            Err(e) => self.failing(e),
        }
    }

    /// The run after a lookup failed with `e`.
    fn after_lookup_failure(self, e: Failure) -> (r: (Pipeline, Action))
        ensures
            (r.0@, r.1@) == self@.after_lookup_failure(e),
    {
        if e.is_authentication() && self.refreshes < MAX_REFRESHES {
            match refresh_request(&self.config, self.credential.refresh_token.as_str()) {
                Ok(request) => {
                    let mut run = self;
                    run.stage = Stage::Refreshing;
                    run.refreshes = run.refreshes + 1;
                    run.template = None;
                    run.folder = None;
                    (run, Action::Refresh(request))
                },
                Err(e2) => self.failing(e2),
            }
        } else {
            self.failing(e)
        }
    }

    /// The run once a lookup is back.
    fn after_lookup(self) -> (r: (Pipeline, Action))
        ensures
            (r.0@, r.1@) == self@.after_lookup(),
    {
        match &self.template {
            Some(Ok(template)) => match &self.folder {
                Some(Ok(folder)) => {
                    let request = copy_request(
                        self.credential.access_token.as_str(),
                        template.id.as_str(),
                        folder.id.as_str(),
                        self.request.iso_date.as_str(),
                    );
                    match request {
                        Ok(request) => {
                            let mut run = self;
                            run.stage = Stage::Copying;
                            (run, Action::Copy(request))
                        },
                        Err(e) => self.failing(e),
                    }
                },
                Some(Err(e)) => {
                    let e = *e;
                    self.after_lookup_failure(e)
                },
                None => (self, Action::Wait),
            },
            Some(Err(e)) => {
                let e = *e;
                if self.folder.is_some() {
                    self.after_lookup_failure(e)
                } else {
                    (self, Action::Wait)
                }
            },
            None => (self, Action::Wait),
        }
    }

    /// The copy that a failed run has left behind on the remote side, for
    /// whoever cleans up: a run that fails once the copy is made does not
    /// undo it.
    pub fn orphan(&self) -> (copy: Option<&DocumentRef>)
        ensures
            match copy {
                Some(left) => self.stage == Stage::Failed && self.copy == Some(*left),
                None => self.stage != Stage::Failed || self.copy is None,
            },
    {
        match self.stage {
            Stage::Failed => self.copy.as_ref(),
            _ => None,
        }
    }

    /// Begins a run: sends out the two lookups.
    pub fn start(config: Config, request: PipelineRequest, credential: Credential) -> (r: (
        Pipeline,
        Action,
    ))
        ensures
            (r.0@, r.1@) == pipeline_start(config@, request@, credential@),
    {
        let run = Pipeline {
            config,
            request,
            credential,
            stage: Stage::Lookup,
            refreshes: 0,
            template: None,
            folder: None,
            copy: None,
            rendered: None,
        };
        run.looking_up()
    }

    /// Takes `event` in and says what is to be done next.
    pub fn step(self, event: Event) -> (r: (Pipeline, Action))
        ensures
            (r.0@, r.1@) == pipeline_step(self@, event@),
    {
        match (self.stage, event) {
            (Stage::Lookup, Event::TemplateListed(reply)) => {
                if self.template.is_none() {
                    let found = resolve_match(reply);
                    let mut run = self;
                    run.template = Some(found);
                    run.after_lookup()
                } else {
                    self.failing(Failure::OutOfTurn)
                }
            },
            (Stage::Lookup, Event::FolderListed(reply)) => {
                if self.folder.is_none() {
                    let found = resolve_match(reply);
                    let mut run = self;
                    run.folder = Some(found);
                    run.after_lookup()
                } else {
                    self.failing(Failure::OutOfTurn)
                }
            },
            (Stage::Refreshing, Event::Refreshed(reply)) => {
                match accept_refresh(self.credential.duplicate(), reply) {
                    Ok(c) => {
                        let copy = c.duplicate();
                        let mut run = self;
                        run.credential = c;
                        run.stage = Stage::SavingCredential;
                        (run, Action::SaveCredential(copy))
                    },
                    Err(e) => self.failing(e),
                }
            },
            (Stage::SavingCredential, Event::CredentialSaved(written)) => {
                if written {
                    self.looking_up()
                } else {
                    self.failing(Failure::Storage)
                }
            },
            (Stage::Copying, Event::Copied(reply)) => {
                match settle(reply) {
                    Ok(copy) => {
                        let request = patch_request(
                            self.credential.access_token.as_str(),
                            copy.id.as_str(),
                            self.request.display_date.as_str(),
                        );
                        match request {
                            Ok(request) => {
                                let mut run = self;
                                run.copy = Some(copy);
                                run.stage = Stage::Patching;
                                (run, Action::Patch(request))
                            },
                            Err(e) => self.failing(e),
                        }
                    },
                    Err(e) => self.failing(e),
                }
            },
            (Stage::Patching, Event::Patched(reply)) => {
                match settle(reply) {
                    Ok(_) => match &self.copy {
                        Some(copy) => {
                            let request = export_request(
                                self.credential.access_token.as_str(),
                                copy.id.as_str(),
                            );
                            match request {
                                Ok(request) => {
                                    let mut run = self;
                                    run.stage = Stage::Exporting;
                                    (run, Action::Export(request))
                                },
                                Err(e) => self.failing(e),
                            }
                        },
                        None => self.failing(Failure::OutOfTurn),
                    },
                    Err(e) => self.failing(e),
                }
            },
            (Stage::Exporting, Event::Exported(reply)) => {
                match settle(reply) {
                    Ok(bytes) => match &self.copy {
                        Some(copy) => {
                            let name = copy.name.clone();
                            let out = bytes.clone();
                            proof {
                                lemma_bytes_deep_view(bytes);
                            }
                            let mut run = self;
                            run.rendered = Some(bytes);
                            run.stage = Stage::Persisting;
                            (run, Action::Persist { name, bytes: out })
                        },
                        None => self.failing(Failure::OutOfTurn),
                    },
                    Err(e) => self.failing(e),
                }
            },
            (Stage::Persisting, Event::Persisted(written)) => {
                if self.copy.is_some() && self.rendered.is_some() {
                    if written {
                        let mut run = self;
                        let document = run.copy.take().unwrap();
                        let bytes = run.rendered.take().unwrap();
                        proof {
                            lemma_bytes_deep_view(bytes);
                        }
                        run.stage = Stage::Done;
                        (run, Action::Done(InvoiceArtifact { bytes, document }))
                    } else {
                        self.failing(Failure::Storage)
                    }
                } else {
                    self.failing(Failure::OutOfTurn)
                }
            },
            (_, _) => self.failing(Failure::OutOfTurn),
        }
    }
}


} // verus!
