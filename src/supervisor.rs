//! The single slot that owns the running server process, and the decisions
//! of launching into it and stopping it.
use vstd::prelude::*;
use crate::outcome::{LaunchError, Status};
use crate::path::ResolvedPath;

verus! {

/// Owns the handle of the running server process, if there is one. The
/// handle type is whatever the caller uses for a child process.
pub struct Supervisor<H> {
    handle: Option<H>,
}

/// One launch: from the slot holding `pre`, with `res` from locating the
/// binary and `sp` from starting it, the slot holds `post` and the launch
/// reports `r`. Neither is asked for while a server runs, and the start is
/// not asked for when locating failed.
pub open spec fn launch_step<H>(
    pre: Option<H>,
    res: Result<ResolvedPath, LaunchError>,
    sp: Result<H, String>,
    post: Option<H>,
    r: Result<Status, LaunchError>,
) -> bool {
    if pre is Some {
        post == pre && r == Ok::<Status, LaunchError>(Status::AlreadyRunning)
    } else {
        match res {
            Err(e) => post is None && r == Err::<Status, LaunchError>(e),
            Ok(p) => match sp {
                Ok(h) => post == Some(h) && r == Ok::<Status, LaunchError>(Status::Launched),
                Err(m) => post is None && r == Err::<Status, LaunchError>(
                    LaunchError::SpawnFailed { path: p.program, reason: m },
                ),
            },
        }
    }
}

/// One stop: from the slot holding `pre`, with `killed` from killing the
/// process, the slot holds `post` and the stop reports `r`.
pub open spec fn stop_step<H>(
    pre: Option<H>,
    killed: Result<(), String>,
    post: Option<H>,
    r: Result<Status, LaunchError>,
) -> bool {
    &&& post is None
    &&& if pre is None {
        r == Ok::<Status, LaunchError>(Status::NotRunning)
    } else {
        match killed {
            Ok(()) => r == Ok::<Status, LaunchError>(Status::Stopped),
            Err(m) => r == Err::<Status, LaunchError>(LaunchError::KillFailed(m)),
        }
    }
}

/// Launches made one after another, starting from the slot holding `pre`:
/// launch `i` goes from `slots[i]` to `slots[i + 1]` with the outcomes
/// `steps[i]` and reports `results[i]`.
pub open spec fn launch_run<H>(
    pre: Option<H>,
    steps: Seq<(Result<ResolvedPath, LaunchError>, Result<H, String>)>,
    slots: Seq<Option<H>>,
    results: Seq<Result<Status, LaunchError>>,
) -> bool {
    &&& slots.len() == steps.len() + 1
    &&& results.len() == steps.len()
    &&& slots[0] == pre
    &&& forall|i: int|
        0 <= i < steps.len() ==> launch_step(
            slots[i],
            steps[i].0,
            steps[i].1,
            slots[i + 1],
            #[trigger] results[i],
        )
}

proof fn lemma_stays_running<H>(
    steps: Seq<(Result<ResolvedPath, LaunchError>, Result<H, String>)>,
    slots: Seq<Option<H>>,
    results: Seq<Result<Status, LaunchError>>,
    i: int,
    j: int,
)
    requires
        launch_run(slots[0], steps, slots, results),
        0 <= i < j <= steps.len(),
        slots[i] is Some,
    ensures
        slots[j] is Some,
        j < steps.len() ==> results[j] == Ok::<Status, LaunchError>(Status::AlreadyRunning),
    decreases j - i,
{
    assert(launch_step(slots[i], steps[i].0, steps[i].1, slots[i + 1], results[i]));
    if i + 1 < j {
        lemma_stays_running(steps, slots, results, i + 1, j);
    }
    if j < steps.len() {
        assert(launch_step(slots[j], steps[j].0, steps[j].1, slots[j + 1], results[j]));
    }
}

/// Mutual exclusion: of launches made one after another while the slot
/// starts empty, once one reports `Launched` every later one reports
/// `AlreadyRunning` and calls neither its locating nor its starting step; so
/// at most one launch starts a process. Where every locating and starting
/// step succeeds, the first launch is the one that reports `Launched`.
pub proof fn lemma_single_launch<H>(
    steps: Seq<(Result<ResolvedPath, LaunchError>, Result<H, String>)>,
    slots: Seq<Option<H>>,
    results: Seq<Result<Status, LaunchError>>,
)
    requires
        launch_run(None, steps, slots, results),
    ensures
        forall|i: int, j: int|
            0 <= i < j < steps.len() && results[i] == Ok::<Status, LaunchError>(Status::Launched)
                ==> slots[j] is Some && results[j] == Ok::<Status, LaunchError>(
                Status::AlreadyRunning,
            ),
        (steps.len() > 0 && forall|i: int|
            0 <= i < steps.len() ==> (#[trigger] steps[i]).0 is Ok && steps[i].1 is Ok) ==> {
            &&& results[0] == Ok::<Status, LaunchError>(Status::Launched)
            &&& forall|j: int|
                0 < j < steps.len() ==> #[trigger] results[j] == Ok::<Status, LaunchError>(
                    Status::AlreadyRunning,
                )
        },
{
    assert forall|i: int, j: int|
        0 <= i < j < steps.len() && results[i] == Ok::<Status, LaunchError>(
            Status::Launched,
        ) implies slots[j] is Some && results[j] == Ok::<Status, LaunchError>(
        Status::AlreadyRunning,
    ) by {
        assert(launch_step(slots[i], steps[i].0, steps[i].1, slots[i + 1], results[i]));
        if i + 1 < j {
            lemma_stays_running(steps, slots, results, i + 1, j);
        } else {
            assert(launch_step(slots[j], steps[j].0, steps[j].1, slots[j + 1], results[j]));
        }
    }
    if steps.len() > 0 && forall|i: int|
        0 <= i < steps.len() ==> (#[trigger] steps[i]).0 is Ok && steps[i].1 is Ok {
        assert(steps[0].0 is Ok && steps[0].1 is Ok);
        assert(launch_step(slots[0], steps[0].0, steps[0].1, slots[1], results[0]));
    }
}

/// A stop with nothing running reports `NotRunning`, whatever killing would
/// have reported, and leaves the slot empty.
pub proof fn lemma_idle_stop<H>(
    killed: Result<(), String>,
    post: Option<H>,
    r: Result<Status, LaunchError>,
)
    requires
        stop_step(None, killed, post, r),
    ensures
        r == Ok::<Status, LaunchError>(Status::NotRunning),
        post is None,
{
}

/// A launch followed by a stop leaves the slot empty, and a launch after
/// that, whose locating and starting succeed, reports `Launched` again.
pub proof fn lemma_stop_frees_slot<H>(
    pre: Option<H>,
    res: Result<ResolvedPath, LaunchError>,
    sp: Result<H, String>,
    launched: Option<H>,
    r1: Result<Status, LaunchError>,
    killed: Result<(), String>,
    stopped: Option<H>,
    r2: Result<Status, LaunchError>,
    res2: Result<ResolvedPath, LaunchError>,
    sp2: Result<H, String>,
    relaunched: Option<H>,
    r3: Result<Status, LaunchError>,
)
    requires
        launch_step(pre, res, sp, launched, r1),
        stop_step(launched, killed, stopped, r2),
        launch_step(stopped, res2, sp2, relaunched, r3),
        res2 is Ok,
        sp2 is Ok,
    ensures
        stopped is None,
        r3 == Ok::<Status, LaunchError>(Status::Launched),
        relaunched == Some(sp2->Ok_0),
{
}

impl<H> Supervisor<H> {
    /// The handle held, if any.
    pub closed spec fn handle(&self) -> Option<H> {
        self.handle
    }

    pub open spec fn running(&self) -> bool {
        self.handle() is Some
    }

    /// A slot with nothing running.
    pub fn new() -> (r: Self)
        ensures
            r.handle() is None,
    {
        Supervisor { handle: None }
    }

    /// Whether a server is running, as far as the slot knows.
    pub fn is_running(&self) -> (r: bool)
        ensures
            r == self.running(),
    {
        self.handle.is_some()
    }

    /// Launches the server unless one runs: `resolve` locates the binary and
    /// `spawn` starts it; neither is called while a server runs, and `spawn`
    /// is not called when `resolve` fails.
    pub fn launch<R, S>(&mut self, resolve: R, spawn: S) -> (r: Result<Status, LaunchError>)
        where
            R: FnOnce() -> Result<ResolvedPath, LaunchError>,
            S: FnOnce(&ResolvedPath) -> Result<H, String>,
        requires
            resolve.requires(()),
            forall|p: &ResolvedPath| spawn.requires((p,)),
        ensures
            exists|res: Result<ResolvedPath, LaunchError>, sp: Result<H, String>|
                {
                    &&& !old(self).running() ==> resolve.ensures((), res)
                    &&& (!old(self).running() && res is Ok) ==> spawn.ensures((&res->Ok_0,), sp)
                    &&& #[trigger] launch_step(old(self).handle(), res, sp, final(self).handle(), r)
                },
    {
        if self.handle.is_some() {
            let r = Ok(Status::AlreadyRunning);
            assert(launch_step(
                old(self).handle(),
                Err(LaunchError::SelectionCancelled),
                arbitrary(),
                self.handle(),
                r,
            ));
            return r;
        }
        let res = resolve();
        match res {
            Err(e) => {
                let ghost res_g = Err::<ResolvedPath, LaunchError>(e);
                assert(launch_step(old(self).handle(), res_g, arbitrary(), self.handle(), Err(e)));
                Err(e)
            },
            Ok(p) => {
                let sp = spawn(&p);
                match sp {
                    Ok(h) => {
                        self.handle = Some(h);
                        assert(launch_step(old(self).handle(), Ok(p), Ok(h), self.handle(), Ok(Status::Launched)));
                        Ok(Status::Launched)
                    },
                    Err(m) => {
                        let ghost p_g = p;
                        let ghost m_g = m;
                        let r = Err(LaunchError::SpawnFailed { path: p.program, reason: m });
                        assert(launch_step(old(self).handle(), Ok(p_g), Err(m_g), self.handle(), r));
                        r
                    },
                }
            },
        }
    }

    /// Stops the server if one runs: takes the handle out of the slot and
    /// hands it to `kill`, which ends the process. The slot is empty
    /// afterwards, whatever `kill` reports.
    pub fn stop<K>(&mut self, kill: K) -> (r: Result<Status, LaunchError>)
        where
            K: FnOnce(H) -> Result<(), String>,
        requires
            forall|h: H| kill.requires((h,)),
        ensures
            exists|k: Result<(), String>|
                {
                    &&& old(self).running() ==> kill.ensures((old(self).handle()->Some_0,), k)
                    &&& #[trigger] stop_step(old(self).handle(), k, final(self).handle(), r)
                },
    {
        let taken = self.handle.take();
        let ghost killed: Result<(), String> = Ok(());
        let r = match taken {
            None => Ok(Status::NotRunning),
            Some(h) => {
                let outcome = kill(h);
                proof {
                    killed = outcome;
                }
                match outcome {
                    Ok(()) => Ok(Status::Stopped),
                    Err(m) => Err(LaunchError::KillFailed(m)),
                }
            },
        };
        assert(old(self).running() ==> kill.ensures((old(self).handle()->Some_0,), killed));
        assert(stop_step(old(self).handle(), killed, self.handle(), r));
        r
    }
}

} // verus!
