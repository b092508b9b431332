//! Sandbox for player-submitted code: holds each player's submitted
//! program and enforces the submission rules (size limit, nonempty player
//! id).  Execution itself is deliberately isolated from the rest of the
//! system and is a no-op hook here.

use vstd::prelude::*;
use vstd::hash_map::StringHashMap;
use vstd::string::StringExecFns;
use crate::strutil::{chars_vec, u64_to_string, spec_dec_chars};

verus! {

/// Largest accepted code submission, in bytes (1MB).
pub const MAX_CODE_LENGTH: usize = 1000000;

/// The UTF-8 byte length of a string of characters.
pub open spec fn byte_len(s: Seq<char>) -> int {
    vstd::utf8::encode_utf8(s).len() as int
}

/// An ASCII whitespace character.
pub open spec fn is_space_char(c: char) -> bool {
    c == ' ' || c == '\t' || c == '\n' || c == '\r'
}

/// A string that is all whitespace (or empty).
pub open spec fn all_whitespace(s: Seq<char>) -> bool {
    forall|i: int| 0 <= i < s.len() ==> is_space_char(#[trigger] s[i])
}

/// The rejection message for an oversized submission.
pub open spec fn code_too_large_message(code: Seq<char>) -> Seq<char> {
    "Code too large: "@ + spec_dec_chars(byte_len(code)) + " bytes (max: "@ + spec_dec_chars(
        1000000,
    ) + " bytes)"@
}

/// Script execution sandbox.
pub struct Sandbox {
    /// Player code submissions (player_id -> code)
    codes: StringHashMap<String>,
    /// Players with submitted code, in first-submission order.
    players: Vec<String>,
}

/// Type alias for ScriptEngine
pub type ScriptEngine = Sandbox;

/// The names of a sequence of strings, as character sequences.
pub open spec fn player_names(v: Seq<String>) -> Seq<Seq<char>> {
    v.map_values(|s: String| s@)
}

impl Sandbox {
    /// The stored submissions, by player id.
    pub closed spec fn spec_codes(&self) -> Map<Seq<char>, String> {
        self.codes@
    }

    /// The player list mirrors the code map.
    pub closed spec fn wf(&self) -> bool {
        &&& player_names(self.players@).no_duplicates()
        &&& forall|i: int|
            0 <= i < self.players@.len() ==> self.spec_codes().contains_key(
                player_names(self.players@)[i],
            )
        &&& forall|k: Seq<char>|
            self.spec_codes().contains_key(k) ==> player_names(self.players@).contains(k)
    }

    /// Create an empty sandbox.
    pub fn new() -> (r: Self)
        ensures
            r.wf(),
            r.spec_codes() == Map::<Seq<char>, String>::empty(),
    {
        Sandbox { codes: StringHashMap::new(), players: Vec::new() }
    }

    /// Submit player code: refused when over the size limit or when the
    /// player id is blank; otherwise stored under the player id.
    pub fn submit_code(&mut self, player_id: String, code: String) -> (r: Result<(), String>)
        requires
            old(self).wf(),
        ensures
            final(self).wf(),
            match r {
                Ok(()) => byte_len(code@) <= MAX_CODE_LENGTH && !all_whitespace(player_id@)
                    && final(self).spec_codes() == old(self).spec_codes().insert(player_id@, code),
                Err(m) => final(self).spec_codes() == old(self).spec_codes() && (byte_len(code@)
                    > MAX_CODE_LENGTH ==> m@ == code_too_large_message(code@)) && (byte_len(code@)
                    <= MAX_CODE_LENGTH ==> all_whitespace(player_id@) && m@
                    == "Player ID cannot be empty"@),
            },
    {
        let len = code.as_str().as_bytes().len();
        proof {
            assert(byte_len(code@) == len as int);
        }
        if len > MAX_CODE_LENGTH {
            let mut m: String = "Code too large: ".to_owned();
            let lstr = u64_to_string(len as u64);
            m.append(lstr.as_str());
            m.append(" bytes (max: ");
            let mstr = u64_to_string(1000000u64);
            m.append(mstr.as_str());
            m.append(" bytes)");
            return Err(m);
        }

        let id_chars = chars_vec(player_id.as_str());
        let mut has_content = false;
        let nc = id_chars.len();
        for i in 0..nc
            invariant
                nc == id_chars@.len(),
                id_chars@ == player_id@,
                has_content <==> exists|j: int| 0 <= j < i && !is_space_char(id_chars@[j]),
        {
            let c = id_chars[i];
            if !(c == ' ' || c == '\t' || c == '\n' || c == '\r') {
                has_content = true;
            }
        }
        if !has_content {
            return Err("Player ID cannot be empty".to_owned());
        }

        let ghost pid = player_id@;
        let ghost oldnames = player_names(old(self).players@);
        if !self.codes.contains_key(player_id.as_str()) {
            self.players.push(player_id.clone());
            proof {
                assert(player_names(self.players@) =~= oldnames.push(pid));
                assert forall|x: int| 0 <= x < oldnames.len() implies oldnames[x] != pid by {
                    assert(old(self).spec_codes().contains_key(oldnames[x]));
                }
                assert forall|i: int, j: int|
                    0 <= i < j < player_names(self.players@).len() implies player_names(
                    self.players@,
                )[i] != player_names(self.players@)[j] by {
                    if j < oldnames.len() {
                        assert(oldnames.no_duplicates());
                    }
                }
            }
        }
        self.codes.insert(player_id, code);
        proof {
            let names = player_names(self.players@);
            assert forall|i: int|
                0 <= i < self.players@.len() implies self.spec_codes().contains_key(
                #[trigger] names[i],
            ) by {
                if i < oldnames.len() {
                    assert(old(self).spec_codes().contains_key(oldnames[i]) || names[i] == pid);
                }
            }
            assert forall|kk: Seq<char>|
                self.spec_codes().contains_key(kk) implies names.contains(kk) by {
                if kk == pid {
                    if old(self).spec_codes().contains_key(pid) {
                        assert(oldnames.contains(pid));
                        let w = choose|x: int| 0 <= x < oldnames.len() && oldnames[x] == pid;
                        assert(names[w] == pid);
                    } else {
                        assert(names[names.len() - 1] == pid);
                    }
                } else {
                    assert(old(self).spec_codes().contains_key(kk));
                    let w = choose|x: int| 0 <= x < oldnames.len() && oldnames[x] == kk;
                    assert(names[w] == kk);
                }
            }
        }
        Ok(())
    }

    /// Get a player's submitted code.
    pub fn get_code(&self, player_id: &str) -> (r: Option<&String>)
        ensures
            match r {
                Some(c) => self.spec_codes().contains_key(player_id@) && *c == self.spec_codes()[
                    player_id@
                ],
                None => !self.spec_codes().contains_key(player_id@),
            },
    {
        self.codes.get(player_id)
    }

    /// All players with submitted code.
    pub fn list_players(&self) -> (r: Vec<String>)
        requires
            self.wf(),
        ensures
            player_names(r@).no_duplicates(),
            forall|i: int|
                0 <= i < r@.len() ==> self.spec_codes().contains_key(player_names(r@)[i]),
            forall|k: Seq<char>|
                self.spec_codes().contains_key(k) ==> player_names(r@).contains(k),
    {
        let mut out: Vec<String> = Vec::new();
        let n = self.players.len();
        for i in 0..n
            invariant
                n == self.players@.len(),
                out@.len() == i,
                forall|j: int|
                    0 <= j < i ==> player_names(out@)[j] == player_names(self.players@)[j],
        {
            let ghost prev = out@;
            out.push(self.players[i].clone());
            proof {
                assert(player_names(out@) =~= player_names(prev).push(
                    self.players@[i as int]@,
                ));
            }
        }
        proof {
            assert(player_names(out@) =~= player_names(self.players@));
        }
        out
    }

    /// Execute a script in the sandbox: the isolation hook; accepts every
    /// script and touches no state.
    pub fn execute_script(&self, script: &str) -> (r: Result<(), String>)
        ensures
            r is Ok,
    {
        let _ = script;
        Ok(())
    }
}

impl Default for Sandbox {
    /// An empty sandbox.
    fn default() -> (r: Self)
        ensures
            r.wf(),
            r.spec_codes() == Map::<Seq<char>, String>::empty(),
    {
        Self::new()
    }
}

} // verus!
