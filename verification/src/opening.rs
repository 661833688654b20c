//! Opening a video, step by step.
//!
//! Opening alternates between work that only the shell can do (building a
//! source, adding it to the pipeline, asking where playback is) and decisions
//! of the engine. An [`Opening`] stands for an open that is under way: its
//! stage says what the shell has to do next, and [`Players::advance`] takes
//! what came of it.

use crate::action::Action;
use crate::model::Model;
use crate::player::Players;
use crate::text::is_uri_path;
use vstd::prelude::*;
use vstd::string::*;

verus! {

/// What the shell has to do next.
#[derive(Debug, PartialEq, Eq)]
pub enum OpenStage<S> {
    /// Build a source for the path.
    Build,
    /// Start probing the media facts in the background.
    Probe { source: S },
    /// Add the source to the pipeline.
    Attach { source: S },
    /// Ask the pipeline for the position.
    Locate { source: S },
    /// Carry out what the last step asked for; the tab then takes the place of
    /// the closed tab that it brings back.
    Settle,
    /// Nothing: the open has ended.
    Done,
}

/// What came of the shell's work.
#[derive(Debug, PartialEq, Eq)]
pub enum OpenEvent<S> {
    Built { source: S },
    BuildFailed,
    Probed,
    Attached,
    AttachFailed,
    Located { position: Option<u64> },
    Settled,
}

/// The place and the star that a reopened tab gets back.
#[derive(Clone, Copy, Debug, PartialEq, Eq, Structural)]
pub struct Place {
    pub index: usize,
    pub starred: bool,
}

/// An open that is under way.
#[derive(Debug, PartialEq, Eq)]
pub struct Opening<S> {
    pub path: String,
    pub restore: Option<Place>,
    pub stage: OpenStage<S>,
}

/// The stage once the tab has been added: one that brings a closed tab back has
/// yet to take its place.
pub open spec fn last_stage<S>(restore: Option<Place>) -> OpenStage<S> {
    if restore is Some {
        OpenStage::Settle
    } else {
        OpenStage::Done
    }
}

/// The stage after `event`. An event that does not belong to the stage leaves
/// it as it is.
pub open spec fn next_stage<S>(
    stage: OpenStage<S>,
    restore: Option<Place>,
    event: OpenEvent<S>,
) -> OpenStage<S> {
    match (stage, event) {
        (OpenStage::Build, OpenEvent::Built { source }) => OpenStage::Probe { source },
        (OpenStage::Build, OpenEvent::BuildFailed) => OpenStage::Done,
        (OpenStage::Probe { source }, OpenEvent::Probed) => OpenStage::Attach { source },
        (OpenStage::Attach { source }, OpenEvent::Attached) => OpenStage::Locate { source },
        (OpenStage::Attach { source }, OpenEvent::AttachFailed) => OpenStage::Done,
        (OpenStage::Locate { source }, OpenEvent::Located { position }) => last_stage(restore),
        (OpenStage::Settle, OpenEvent::Settled) => OpenStage::Done,
        (stage, _) => stage,
    }
}

/// The engine after `event`. Two steps change it: the one that adds the tab,
/// and the one that gives it the star and the place of the closed tab that it
/// brings back.
pub open spec fn after_event<S>(
    m: Model<S>,
    task: Opening<S>,
    event: OpenEvent<S>,
    now: u64,
) -> Model<S> {
    match (task.stage, event) {
        (OpenStage::Locate { source }, OpenEvent::Located { position }) => m.opened(
            task.path@,
            source,
            position,
            now,
        ),
        (OpenStage::Settle, OpenEvent::Settled) => match task.restore {
            Some(place) => m.restored(place.index as int, place.starred),
            None => m,
        },
        _ => m,
    }
}

/// What `event` asks for.
pub open spec fn event_actions<S>(
    m: Model<S>,
    task: Opening<S>,
    event: OpenEvent<S>,
    now: u64,
) -> Seq<Action<S>> {
    match (task.stage, event) {
        (OpenStage::Locate { source }, OpenEvent::Located { position }) => m.open_actions(
            task.path@,
            source,
            position,
            now,
        ),
        (OpenStage::Settle, OpenEvent::Settled) => match task.restore {
            Some(place) => m.restore_actions(place.index as int, place.starred),
            None => Seq::empty(),
        },
        _ => Seq::empty(),
    }
}

/// The stage once the tab has been added.
fn after_source<S>(restore: Option<Place>) -> (stage: OpenStage<S>)
    ensures
        stage == last_stage::<S>(restore),
{
    match restore {
        Some(_) => OpenStage::Settle,
        None => OpenStage::Done,
    }
}

impl<S> Players<S> {
    /// Begins to open `path` in a new tab.
    pub fn open(&self, path: &str) -> (task: Opening<S>)
        ensures
            task.path@ == path@,
            task.restore is None,
            task.stage is Build,
    {
        Opening { path: path.to_owned(), restore: None, stage: OpenStage::Build }
    }

    /// Begins to reopen the tab that was closed last, at its old index.
    /// Repeated calls walk back the close history; `None` at its end.
    pub fn reopen_closed(&mut self) -> (task: Option<Opening<S>>)
        requires
            old(self).wf(),
        ensures
            final(self).wf(),
            old(self)@.closed.len() == 0 ==> task is None && final(self)@ == old(self)@,
            old(self)@.closed.len() > 0 ==> {
                let last = old(self)@.closed.last();
                &&& task is Some
                &&& task->0.path@ == last.path
                &&& task->0.restore is Some
                &&& task->0.restore->0.index == last.index
                &&& task->0.restore->0.starred == last.starred
                &&& task->0.stage is Build
                &&& final(self)@ == (Model { closed: old(self)@.closed.drop_last(), ..old(self)@ })
            },
    {
        match self.pop_closed() {
            Some(c) => Some(
                Opening {
                    path: c.path,
                    restore: Some(Place { index: c.index, starred: c.starred }),
                    stage: OpenStage::Build,
                },
            ),
            None => None,
        }
    }

    /// Takes what came of the shell's work on an open. Returns the open at its
    /// next stage, and what the shell is to do at once.
    pub fn advance(&mut self, task: Opening<S>, event: OpenEvent<S>, now: u64) -> (r: (
        Opening<S>,
        Vec<Action<S>>,
    ))
        requires
            old(self).wf(),
        ensures
            final(self).wf(),
            r.0.path@ == task.path@,
            r.0.restore == task.restore,
            r.0.stage == next_stage(task.stage, task.restore, event),
            final(self)@ == after_event(old(self)@, task, event, now),
            r.1@ == event_actions(old(self)@, task, event, now),
    {
        let Opening { path, restore, stage } = task;
        let mut out: Vec<Action<S>> = Vec::new();
        let next = match (stage, event) {
            (OpenStage::Build, OpenEvent::Built { source }) => OpenStage::Probe { source },
            (OpenStage::Build, OpenEvent::BuildFailed) => OpenStage::Done,
            (OpenStage::Probe { source }, OpenEvent::Probed) => OpenStage::Attach { source },
            (OpenStage::Attach { source }, OpenEvent::Attached) => OpenStage::Locate { source },
            (OpenStage::Attach { .. }, OpenEvent::AttachFailed) => OpenStage::Done,
            (OpenStage::Locate { source }, OpenEvent::Located { position }) => {
                out = self.attach(path.clone(), source, position, now);
                after_source(restore)
            },
            (OpenStage::Settle, OpenEvent::Settled) => {
                if let Some(place) = restore {
                    out = self.restore(place.index, place.starred);
                }
                OpenStage::Done
            },
            (stage, _) => stage,
        };
        assert(out@ =~= event_actions(old(self)@, task, event, now));
        (Opening { path, restore, stage: next }, out)
    }
}

/// An open that goes well takes its steps to the end, and only its last steps
/// change the engine: the tab is added, and then takes the place of the closed
/// tab that it brings back, if any.
pub proof fn a_smooth_open_adds_the_tab<S>(
    m: Model<S>,
    task: Opening<S>,
    source: S,
    position: Option<u64>,
    now: u64,
)
    requires
        task.stage is Build,
    ensures
        ({
            let built = OpenEvent::Built { source };
            let located = OpenEvent::Located { position };
            let t1 = Opening { stage: next_stage(task.stage, task.restore, built), ..task };
            let t2 = Opening { stage: next_stage(t1.stage, task.restore, OpenEvent::Probed), ..task };
            let t3 = Opening {
                stage: next_stage(t2.stage, task.restore, OpenEvent::Attached),
                ..task
            };
            let t4 = Opening { stage: next_stage(t3.stage, task.restore, located), ..task };
            let t5 = Opening { stage: next_stage(t4.stage, task.restore, OpenEvent::Settled), ..task };
            let opened = m.opened(task.path@, source, position, now);
            &&& after_event(m, task, built, now) == m
            &&& after_event(m, t1, OpenEvent::Probed, now) == m
            &&& after_event(m, t2, OpenEvent::Attached, now) == m
            &&& event_actions(m, task, built, now).len() == 0
            &&& event_actions(m, t1, OpenEvent::Probed, now).len() == 0
            &&& event_actions(m, t2, OpenEvent::Attached, now).len() == 0
            &&& after_event(m, t3, located, now) == opened
            &&& event_actions(m, t3, located, now) == m.open_actions(
                task.path@,
                source,
                position,
                now,
            )
            &&& t5.stage is Done
            &&& after_event(opened, t4, OpenEvent::Settled, now) == (match task.restore {
                Some(place) => opened.restored(place.index as int, place.starred),
                None => opened,
            })
        }),
{
}

/// An open that fails has ended: it leaves the open tabs, their order, their
/// stars and everything else as they are, and asks for nothing. That holds of
/// one that was to bring a closed tab back, too.
pub proof fn a_failed_open_changes_nothing<S>(
    m: Model<S>,
    task: Opening<S>,
    event: OpenEvent<S>,
    now: u64,
)
    requires
        (task.stage is Build && event is BuildFailed) || (task.stage is Attach
            && event is AttachFailed),
    ensures
        next_stage(task.stage, task.restore, event) is Done,
        after_event(m, task, event, now) == m,
        event_actions(m, task, event, now).len() == 0,
{
}

/// The texts of a result.
pub open spec fn result_text(r: Result<String, String>) -> Result<Seq<char>, Seq<char>> {
    match r {
        Ok(t) => Ok(t@),
        Err(e) => Err(e@),
    }
}

/// The URI of a path: a URI stands for itself; the name of a file is converted,
/// and `converted` is what came of that.
pub open spec fn uri_text(
    path: Seq<char>,
    converted: Result<Seq<char>, Seq<char>>,
) -> Result<Seq<char>, Seq<char>> {
    if crate::text::is_uri(path) {
        Ok(path)
    } else {
        match converted {
            Ok(u) => Ok(u),
            Err(e) => Err("bad path "@ + path + ": "@ + e),
        }
    }
}

/// The URI of a path: a URI stands for itself; the name of a file is converted,
/// and `converted` is what came of that.
pub fn to_uri(path: &str, converted: Result<String, String>) -> (uri: Result<String, String>)
    ensures
        result_text(uri) == uri_text(path@, result_text(converted)),
{
    if is_uri_path(path) {
        return Ok(path.to_owned());
    }
    match converted {
        Ok(u) => Ok(u),
        Err(e) => {
            let mut out = "bad path ".to_owned();
            out.append(path);
            out.append(": ");
            out.append(e.as_str());
            Err(out)
        },
    }
}

/// The URI that a new source plays, or why no source can be built for `path`:
/// the player element has to have been made (`made`), and the path to be
/// converted (`converted`).
pub fn build_source(
    path: &str,
    made: Result<(), String>,
    converted: Result<String, String>,
) -> (uri: Result<String, String>)
    ensures
        result_text(uri) == (match made {
            Err(e) => Err("playbin3: "@ + e@),
            Ok(_) => uri_text(path@, result_text(converted)),
        }),
{
    match made {
        Err(e) => {
            let mut out = "playbin3: ".to_owned();
            out.append(e.as_str());
            Err(out)
        },
        Ok(_) => to_uri(path, converted),
    }
}

/// What a path has become stays: where the conversion of a file's name gives a
/// URI, taking the URI of the result gives it back, whatever a second
/// conversion would say.
pub proof fn taking_the_uri_twice_changes_nothing(
    path: Seq<char>,
    converted: Result<Seq<char>, Seq<char>>,
    again: Result<Seq<char>, Seq<char>>,
)
    requires
        converted is Ok ==> crate::text::is_uri(converted->Ok_0),
    ensures
        uri_text(path, converted) is Ok ==> uri_text(uri_text(path, converted)->Ok_0, again)
            == uri_text(path, converted),
{
}

/// Which stage follows which: build, probe, attach, locate; then the end, or
/// the place of the closed tab that is brought back. A failure ends the open.
pub proof fn each_step_leads_to_the_next<S>(
    restore: Option<Place>,
    source: S,
    position: Option<u64>,
)
    ensures
        next_stage(OpenStage::Build, restore, OpenEvent::Built { source }) == (OpenStage::Probe {
            source,
        }),
        next_stage(OpenStage::Probe { source }, restore, OpenEvent::Probed)
            == (OpenStage::Attach { source }),
        next_stage(OpenStage::Attach { source }, restore, OpenEvent::Attached)
            == (OpenStage::Locate { source }),
        restore is None ==> next_stage(
            OpenStage::Locate { source },
            restore,
            OpenEvent::Located { position },
        ) == OpenStage::<S>::Done,
        restore is Some ==> next_stage(
            OpenStage::Locate { source },
            restore,
            OpenEvent::Located { position },
        ) == OpenStage::<S>::Settle,
        next_stage(OpenStage::<S>::Settle, restore, OpenEvent::Settled) == OpenStage::<S>::Done,
        next_stage(OpenStage::<S>::Build, restore, OpenEvent::BuildFailed)
            == OpenStage::<S>::Done,
        next_stage(OpenStage::Attach { source }, restore, OpenEvent::AttachFailed)
            == OpenStage::<S>::Done,
{
}

/// An event that does not answer the stage changes nothing and asks for
/// nothing.
pub proof fn an_event_out_of_turn_does_nothing<S>(
    m: Model<S>,
    task: Opening<S>,
    event: OpenEvent<S>,
    now: u64,
)
    requires
        !(task.stage is Build && (event is Built || event is BuildFailed)),
        !(task.stage is Probe && event is Probed),
        !(task.stage is Attach && (event is Attached || event is AttachFailed)),
        !(task.stage is Locate && event is Located),
        !(task.stage is Settle && event is Settled),
    ensures
        next_stage(task.stage, task.restore, event) == task.stage,
        after_event(m, task, event, now) == m,
        event_actions(m, task, event, now).len() == 0,
{
}

/// A tab that is brought back ends with the star of the closed tab and at its
/// index, as far as there are so many tabs, and what takes it there is what
/// moving it takes.
pub proof fn settling_gives_the_place_back<S>(m: Model<S>, task: Opening<S>, place: Place, now: u64)
    requires
        task.stage is Settle,
        task.restore == Some(place),
        m.valid(),
        m.tabs.len() > 0,
        m.active == m.tabs.len() - 1,
    ensures
        ({
            let after = after_event(m, task, OpenEvent::Settled, now);
            let last = m.tabs.len() - 1;
            let dest = if place.index < last {
                place.index as int
            } else {
                last
            };
            &&& after.active == dest
            &&& after.tabs[dest].path == m.tabs[last].path
            &&& after.tabs[dest].handle == m.tabs[last].handle
            &&& after.tabs[dest].starred == place.starred
            &&& event_actions(m, task, OpenEvent::Settled, now).len() == if place.index < last {
                m.tabs.len() + 1
            } else {
                0
            }
        }),
{
}

/// A URI plays as it is. The name of a file plays as the URI that it converts
/// to, and fails with its own name and the reason where it does not convert.
pub proof fn a_path_plays_as_its_uri(path: Seq<char>, converted: Result<Seq<char>, Seq<char>>)
    ensures
        crate::text::is_uri(path) ==> uri_text(path, converted) is Ok && uri_text(
            path,
            converted,
        )->Ok_0 == path,
        !crate::text::is_uri(path) && converted is Ok ==> uri_text(path, converted) is Ok
            && uri_text(path, converted)->Ok_0 == converted->Ok_0,
        !crate::text::is_uri(path) && converted is Err ==> uri_text(path, converted) is Err
            && uri_text(path, converted)->Err_0 == "bad path "@ + path + ": "@ + converted->Err_0,
{
}

} // verus!
