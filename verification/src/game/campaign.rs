//! Campaign runs: creation, start/stop, ticking, and the in-memory store
//! behind the campaign manager.  Saving and loading runs to disk is I/O and
//! lives with the callers; run-id validation and all state transitions are
//! verified here.

use vstd::prelude::*;
use vstd::hash_map::StringHashMap;
use vstd::string::StringExecFns;
use crate::strutil::chars_vec;

verus! {

/// A run-id character: ASCII alphanumeric, underscore, hyphen or dot.
pub open spec fn run_id_char_ok(c: char) -> bool {
    let u = c as u32;
    (48 <= u <= 57) || (65 <= u <= 90) || (97 <= u <= 122) || c == '_' || c == '-' || c == '.'
}

/// A path separator somewhere in the id.
pub open spec fn has_path_separator(s: Seq<char>) -> bool {
    exists|i: int| 0 <= i < s.len() && (s[i] == '/' || s[i] == '\\')
}

/// Two consecutive dots somewhere in the id.
pub open spec fn has_dot_dot(s: Seq<char>) -> bool {
    exists|i: int| #![trigger s[i]] 0 <= i && i + 1 < s.len() && s[i] == '.' && s[i + 1] == '.'
}

/// A valid run id: nonempty, at most 255 characters, free of path
/// separators and of "..", and made of run-id characters only.
pub open spec fn valid_run_id(s: Seq<char>) -> bool {
    &&& s.len() > 0
    &&& s.len() <= 255
    &&& !has_path_separator(s)
    &&& !has_dot_dot(s)
    &&& forall|i: int| 0 <= i < s.len() ==> run_id_char_ok(#[trigger] s[i])
}

/// The rejection message for an invalid run id, mirroring the order in
/// which `validate_run_id` checks the rules.
pub open spec fn run_id_error(s: Seq<char>) -> Seq<char> {
    if s.len() == 0 {
        "Run ID cannot be empty"@
    } else if has_path_separator(s) || has_dot_dot(s) {
        "Run ID contains invalid characters (path separators or '..')"@
    } else if s.len() > 255 {
        "Run ID is too long (max 255 characters)"@
    } else {
        "Run ID can only contain alphanumeric characters, underscore, hyphen, and dot"@
    }
}

/// Validate a run id, rejecting anything that could escape the save
/// directory (path separators, "..") or overflow a file name.
pub fn validate_run_id(run_id: &str) -> (r: Result<(), String>)
    ensures
        r is Ok <==> valid_run_id(run_id@),
        r matches Err(m) ==> m@ == run_id_error(run_id@),
{
    let chars = chars_vec(run_id);
    let n = chars.len();

    if n == 0 {
        return Err("Run ID cannot be empty".to_owned());
    }

    // Check for path separators and '..'
    let mut bad_path = false;
    for i in 0..n
        invariant
            n == chars@.len(),
            chars@ == run_id@,
            bad_path <==> (exists|j: int| #![trigger chars@[j]]
                0 <= j < i && (chars@[j] == '/' || chars@[j] == '\\')) || (exists|j: int|
                #![trigger chars@[j]]
                0 <= j < i && j + 1 < n && chars@[j] == '.' && chars@[j + 1] == '.'),
    {
        if chars[i] == '/' || chars[i] == '\\' {
            bad_path = true;
        }
        if i + 1 < n && chars[i] == '.' && chars[i + 1] == '.' {
            bad_path = true;
        }
    }
    if bad_path {
        return Err("Run ID contains invalid characters (path separators or '..')".to_owned());
    }

    if n > 255 {
        return Err("Run ID is too long (max 255 characters)".to_owned());
    }

    // Only allow alphanumeric, underscore, hyphen, and dot
    let mut all_ok = true;
    for i in 0..n
        invariant
            n == chars@.len(),
            chars@ == run_id@,
            all_ok <==> forall|j: int| 0 <= j < i ==> run_id_char_ok(#[trigger] chars@[j]),
    {
        let c = chars[i];
        let u = c as u32;
        let ok = (48 <= u && u <= 57) || (65 <= u && u <= 90) || (97 <= u && u <= 122) || c
            == '_' || c == '-' || c == '.';
        all_ok = all_ok && ok;
    }
    if !all_ok {
        return Err(
            "Run ID can only contain alphanumeric characters, underscore, hyphen, and dot".to_owned(),
        );
    }

    Ok(())
}

/// A single campaign run instance.
#[derive(Debug, Clone)]
pub struct CampaignRun {
    pub run_id: String,
    pub tick: u64,
    pub running: bool,
    pub created_at: i64,
}

impl CampaignRun {
    /// Create a run at tick zero, stopped, stamped with the current time.
    pub fn new(run_id: String) -> (r: Self)
        ensures
            r.run_id@ == run_id@,
            r.tick == 0,
            !r.running,
    {
        Self { run_id, tick: 0, running: false, created_at: chrono_timestamp() }
    }

    /// A field-for-field copy of this run.
    pub fn duplicate(&self) -> (r: Self)
        ensures
            r == *self,
    {
        Self {
            run_id: self.run_id.clone(),
            tick: self.tick,
            running: self.running,
            created_at: self.created_at,
        }
    }

    /// Mark the run as running.
    pub fn start(&mut self)
        ensures
            *final(self) == (CampaignRun { running: true, ..*old(self) }),
    {
        self.running = true;
    }

    /// Mark the run as stopped.
    pub fn stop(&mut self)
        ensures
            *final(self) == (CampaignRun { running: false, ..*old(self) }),
    {
        self.running = false;
    }

    /// Advance the run by one tick if it is running.
    pub fn tick(&mut self)
        requires
            old(self).tick < u64::MAX,
        ensures
            *final(self) == (CampaignRun {
                tick: if old(self).running {
                    (old(self).tick + 1) as u64
                } else {
                    old(self).tick
                },
                ..*old(self)
            }),
    {
        if self.running {
            self.tick = self.tick + 1;
        }
    }
}

/// Relies on chrono::Utc::now().timestamp(): seconds since the Unix epoch
/// by the system clock.  Nothing is assumed of the value.
#[verifier::external_body]
fn chrono_timestamp() -> (r: i64) {
    chrono::Utc::now().timestamp()
}

/// In-memory store for active campaign runs.
pub struct InMemoryRunStore {
    runs: StringHashMap<CampaignRun>,
}

impl InMemoryRunStore {
    /// The stored runs, by run id.
    pub closed spec fn spec_runs(&self) -> Map<Seq<char>, CampaignRun> {
        self.runs@
    }

    /// Create an empty store.
    pub fn new() -> (r: Self)
        ensures
            r.spec_runs() == Map::<Seq<char>, CampaignRun>::empty(),
    {
        Self { runs: StringHashMap::new() }
    }

    /// Create a fresh run under `run_id` and return it.
    pub fn create_run(&mut self, run_id: String) -> (r: CampaignRun)
        ensures
            r.run_id@ == run_id@,
            r.tick == 0,
            !r.running,
            final(self).spec_runs() == old(self).spec_runs().insert(run_id@, r),
    {
        let run = CampaignRun::new(run_id.clone());
        let copy = run.duplicate();
        self.runs.insert(run_id, copy);
        run
    }

    /// Look up a run.
    pub fn get_run(&self, run_id: &str) -> (r: Option<&CampaignRun>)
        ensures
            match r {
                Some(run) => self.spec_runs().contains_key(run_id@) && *run == self.spec_runs()[
                    run_id@
                ],
                None => !self.spec_runs().contains_key(run_id@),
            },
    {
        self.runs.get(run_id)
    }

    /// Remove a run, returning it if it was present.
    pub fn remove_run(&mut self, run_id: &str) -> (r: Option<CampaignRun>)
        ensures
            final(self).spec_runs() == old(self).spec_runs().remove(run_id@),
            match r {
                Some(run) => old(self).spec_runs().contains_key(run_id@) && run == old(self).spec_runs()[run_id@],
                None => !old(self).spec_runs().contains_key(run_id@),
            },
    {
        let existing = match self.runs.get(run_id) {
            Some(run) => Some(run.duplicate()),
            None => None,
        };
        self.runs.remove(run_id);
        existing
    }

    /// Insert (or replace) a run under `run_id`.
    pub fn insert_run(&mut self, run_id: String, run: CampaignRun)
        ensures
            final(self).spec_runs() == old(self).spec_runs().insert(run_id@, run),
    {
        self.runs.insert(run_id, run);
    }
}

/// Campaign manager: run lifecycle over the in-memory store.  Persistence
/// of runs is file I/O and is layered on top by the embedding application,
/// which uses `insert_run` and `get_run_state` to move runs in and out.
pub struct CampaignManager {
    store: InMemoryRunStore,
}

impl CampaignManager {
    /// The managed runs, by run id.
    pub closed spec fn spec_runs(&self) -> Map<Seq<char>, CampaignRun> {
        self.store.spec_runs()
    }

    /// Create a manager with no runs.
    pub fn new() -> (r: Self)
        ensures
            r.spec_runs() == Map::<Seq<char>, CampaignRun>::empty(),
    {
        Self { store: InMemoryRunStore::new() }
    }

    /// Validate the id, refuse duplicates, and create and start a run.
    pub fn start_run(&mut self, run_id: String) -> (r: Result<CampaignRun, String>)
        ensures
            match r {
                Ok(run) => valid_run_id(run_id@) && !old(self).spec_runs().contains_key(run_id@)
                    && run.run_id@ == run_id@ && run.tick == 0 && run.running && final(self).spec_runs() == old(self).spec_runs().insert(run_id@, run),
                Err(m) => *final(self) == *old(self) && (!valid_run_id(run_id@) ==> m@
                    == run_id_error(run_id@)) && (valid_run_id(run_id@) ==> old(self).spec_runs().contains_key(run_id@) && m@ == "Run "@ + run_id@
                    + " already exists"@),
            },
    {
        match validate_run_id(run_id.as_str()) {
            Ok(()) => (),
            Err(e) => {
                return Err(e);
            },
        }

        if self.store.get_run(run_id.as_str()).is_some() {
            let mut m: String = "Run ".to_owned();
            m.append(run_id.as_str());
            m.append(" already exists");
            return Err(m);
        }

        let mut run = CampaignRun::new(run_id.clone());
        run.start();
        let copy = run.duplicate();
        self.store.insert_run(run_id, copy);
        Ok(run)
    }

    /// Put a run (for instance one loaded from a save file) under
    /// `run_id`, replacing any run already there.
    pub fn insert_run(&mut self, run_id: String, run: CampaignRun)
        ensures
            final(self).spec_runs() == old(self).spec_runs().insert(run_id@, run),
    {
        self.store.insert_run(run_id, run);
    }

    /// The current state of a run, if it exists.
    pub fn get_run_state(&self, run_id: &str) -> (r: Option<CampaignRun>)
        ensures
            match r {
                Some(run) => self.spec_runs().contains_key(run_id@) && run == self.spec_runs()[
                    run_id@
                ],
                None => !self.spec_runs().contains_key(run_id@),
            },
    {
        match self.store.get_run(run_id) {
            Some(run) => Some(run.duplicate()),
            None => None,
        }
    }

    /// Stop a run.
    pub fn stop_run(&mut self, run_id: &str) -> (r: Result<(), String>)
        ensures
            match r {
                Ok(()) => old(self).spec_runs().contains_key(run_id@) && final(self).spec_runs()
                    == old(self).spec_runs().insert(
                    run_id@,
                    (CampaignRun { running: false, ..old(self).spec_runs()[run_id@] }),
                ),
                Err(m) => !old(self).spec_runs().contains_key(run_id@) && final(self).spec_runs()
                    == old(self).spec_runs() && m@ == "Run "@ + run_id@ + " not found"@,
            },
    {
        match self.store.remove_run(run_id) {
            Some(mut run) => {
                run.stop();
                let ghost stopped = run;
                self.store.insert_run(run_id.to_owned(), run);
                proof {
                    assert(self.spec_runs() =~= old(self).spec_runs().insert(run_id@, stopped));
                }
                Ok(())
            },
            None => {
                proof {
                    assert(self.spec_runs() =~= old(self).spec_runs());
                }
                let mut m: String = "Run ".to_owned();
                m.append(run_id);
                m.append(" not found");
                Err(m)
            },
        }
    }

    /// Advance a running run by one tick; refuse a missing or stopped run.
    /// At the absolute tick limit the count stays put rather than wrap.
    pub fn tick_run(&mut self, run_id: &str) -> (r: Result<(), String>)
        ensures
            match r {
                Ok(()) => old(self).spec_runs().contains_key(run_id@) && old(self).spec_runs()[
                    run_id@
                ].running && final(self).spec_runs() == old(self).spec_runs().insert(
                    run_id@,
                    (CampaignRun {
                        tick: if old(self).spec_runs()[run_id@].tick < u64::MAX {
                            (old(self).spec_runs()[run_id@].tick + 1) as u64
                        } else {
                            old(self).spec_runs()[run_id@].tick
                        },
                        ..old(self).spec_runs()[run_id@]
                    }),
                ),
                Err(m) => final(self).spec_runs() == old(self).spec_runs() && (!old(self).spec_runs().contains_key(run_id@) ==> m@ == "Run "@ + run_id@ + " not found"@)
                    && (old(self).spec_runs().contains_key(run_id@) ==> !old(self).spec_runs()[
                    run_id@
                ].running && m@ == "Run "@ + run_id@ + " is not running"@),
            },
    {
        match self.store.remove_run(run_id) {
            None => {
                proof {
                    assert(self.spec_runs() =~= old(self).spec_runs());
                }
                let mut m: String = "Run ".to_owned();
                m.append(run_id);
                m.append(" not found");
                Err(m)
            },
            Some(mut run) => {
                if !run.running {
                    self.store.insert_run(run_id.to_owned(), run);
                    proof {
                        assert(self.spec_runs() =~= old(self).spec_runs());
                    }
                    let mut m: String = "Run ".to_owned();
                    m.append(run_id);
                    m.append(" is not running");
                    return Err(m);
                }

                if run.tick < u64::MAX {
                    run.tick();
                }
                let ghost ticked = run;
                self.store.insert_run(run_id.to_owned(), run);
                proof {
                    assert(self.spec_runs() =~= old(self).spec_runs().insert(run_id@, ticked));
                }
                Ok(())
            },
        }
    }
}

} // verus!
