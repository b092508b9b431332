//! In-memory storage backend: process-local maps, no durability.  Every
//! operation is verified exactly against the store model transitions in
//! [`crate::auth::models`].

use vstd::prelude::*;
use vstd::hash_map::{HashMapWithView, StringHashMap};
use crate::auth::models::{
    create_session_model, create_user_model, delete_expired_model, delete_session_model,
    get_session_model, Session, SessionModel, StoreModel, User, UserModel,
};

verus! {

/// The names of a sequence of strings, as character sequences.
pub open spec fn token_names(v: Seq<String>) -> Seq<Seq<char>> {
    v.map_values(|s: String| s@)
}

/// In-memory storage backend.
pub struct InMemoryBackend {
    users: StringHashMap<User>,
    users_by_id: HashMapWithView<i64, User>,
    sessions: StringHashMap<Session>,
    session_tokens: Vec<String>,
    next_user_id: i64,
}

impl View for InMemoryBackend {
    type V = StoreModel;

    closed spec fn view(&self) -> StoreModel {
        StoreModel {
            users: self.users@.map_values(|u: User| u@),
            sessions: self.sessions@.map_values(|s: Session| s@),
            next_id: self.next_user_id as int,
        }
    }
}

impl InMemoryBackend {
    /// Internal consistency: the model is well formed, the by-id index
    /// mirrors the by-name map, and the token list mirrors the sessions.
    pub closed spec fn wf(&self) -> bool {
        &&& self@.wf()
        &&& forall|k: Seq<char>|
            self.users@.contains_key(k) ==> self.users_by_id@.contains_key(
                (#[trigger] self.users@[k]).id,
            ) && self.users_by_id@[self.users@[k].id] == self.users@[k]
        &&& forall|id: i64|
            self.users_by_id@.contains_key(id) ==> (#[trigger] self.users_by_id@[id]).id == id
                && self.users@.contains_key(self.users_by_id@[id].username@)
                && self.users@[self.users_by_id@[id].username@] == self.users_by_id@[id]
        &&& token_names(self.session_tokens@).no_duplicates()
        &&& forall|i: int|
            0 <= i < self.session_tokens@.len() ==> self.sessions@.contains_key(
                token_names(self.session_tokens@)[i],
            )
        &&& forall|t: Seq<char>|
            self.sessions@.contains_key(t) ==> token_names(self.session_tokens@).contains(t)
    }

    /// A fresh, empty backend.
    pub fn new() -> (r: Self)
        ensures
            r.wf(),
            r@ == StoreModel::empty(),
    {
        let r = InMemoryBackend {
            users: StringHashMap::new(),
            users_by_id: HashMapWithView::new(),
            sessions: StringHashMap::new(),
            session_tokens: Vec::new(),
            next_user_id: 1,
        };
        proof {
            assert(r@.users =~= Map::<Seq<char>, UserModel>::empty());
            assert(r@.sessions =~= Map::<Seq<char>, SessionModel>::empty());
        }
        r
    }

    /// Create a user: refused on a duplicate username, otherwise stored
    /// under the next id.  The id space runs out only at `i64::MAX`.
    pub fn create_user_at(&mut self, username: &str, password_hash: &str, now: i64) -> (r:
        Result<User, String>)
        requires
            old(self).wf(),
            0 <= now,
        ensures
            final(self).wf(),
            old(self)@.users.contains_key(username@) ==> r is Err,
            !old(self)@.users.contains_key(username@) && old(self)@.next_id < i64::MAX ==> r
                is Ok,
            r matches Ok(u) ==> ({
                let (m2, res) = create_user_model(old(self)@, username@, password_hash@, now as int);
                final(self)@ == m2 && res == Ok::<UserModel, Seq<char>>(u@)
            }),
            r matches Err(m) ==> final(self)@ == old(self)@ && (old(self)@.users.contains_key(
                username@,
            ) ==> m@ == create_user_model(
                old(self)@,
                username@,
                password_hash@,
                now as int,
            ).1->Err_0) && (!old(self)@.users.contains_key(username@) ==> m@
                == "Internal error"@),
    {
        if self.users.contains_key(username) {
            return Err("Username already exists".to_owned());
        }
        if self.next_user_id == i64::MAX {
            return Err("Internal error".to_owned());
        }

        let user_id = self.next_user_id;
        self.next_user_id = self.next_user_id + 1;

        let user = User {
            id: user_id,
            username: username.to_owned(),
            password_hash: password_hash.to_owned(),
            created_at: now,
        };

        self.users.insert(username.to_owned(), user.duplicate());
        self.users_by_id.insert(user_id, user.duplicate());

        proof {
            let (m2, res) = create_user_model(old(self)@, username@, password_hash@, now as int);
            assert(self@.users =~= m2.users);
            assert(self@.sessions =~= m2.sessions);
            assert forall|k: Seq<char>|
                self.users@.contains_key(k) implies self.users_by_id@.contains_key(
                (#[trigger] self.users@[k]).id,
            ) && self.users_by_id@[self.users@[k].id] == self.users@[k] by {
                if k == username@ {
                    assert(self.users@[k] == user);
                    assert(self.users_by_id@[user_id] == user);
                } else {
                    assert(self.users@[k] == old(self).users@[k]);
                    assert(old(self)@.users.contains_key(k));
                    assert(old(self)@.users[k] == old(self).users@[k]@);
                    assert(old(self).users@[k].id != user_id);
                }
            }
            assert forall|id: i64|
                self.users_by_id@.contains_key(id) implies (#[trigger] self.users_by_id@[id]).id
                == id && self.users@.contains_key(self.users_by_id@[id].username@)
                && self.users@[self.users_by_id@[id].username@] == self.users_by_id@[id] by {
                if id == user_id {
                    assert(self.users_by_id@[id] == user);
                    assert(self.users@[username@] == user);
                } else {
                    assert(self.users_by_id@[id] == old(self).users_by_id@[id]);
                    assert(old(self).users_by_id@[id].username@ != username@);
                }
            }
        }

        Ok(user)
    }

    /// Look a user up by name; absence is not an error.
    pub fn get_user_by_username(&self, username: &str) -> (r: Result<Option<User>, String>)
        requires
            self.wf(),
        ensures
            r matches Ok(Some(u)) ==> self@.users.contains_key(username@) && u@ == self@.users[
                username@
            ] && u.username@ == username@,
            r matches Ok(None) ==> !self@.users.contains_key(username@),
            r is Ok,
    {
        match self.users.get(username) {
            Some(u) => {
                proof {
                    assert(self@.users.contains_key(username@));
                    assert(self@.users[username@].username == username@);
                }
                Ok(Some(u.duplicate()))
            },
            None => Ok(None),
        }
    }

    /// Create a session for an existing user, returning the stored
    /// session; refused when the user id is unknown.  A session under the
    /// same token is replaced.
    pub fn create_session_at(&mut self, token: &str, user_id: i64, expires_at: i64, now: i64)
        -> (r: Result<Session, String>)
        requires
            old(self).wf(),
        ensures
            final(self).wf(),
            r matches Ok(sess) ==> final(self)@.sessions == old(self)@.sessions.insert(
                token@,
                sess@,
            ) && sess.token@ == token@ && sess.user_id == user_id && sess.expires_at == expires_at
                && sess.created_at == now,
            ({
                let (m2, res) = create_session_model(
                    old(self)@,
                    token@,
                    user_id as int,
                    expires_at as int,
                    now as int,
                );
                final(self)@ == m2 && (r is Ok <==> res is Ok) && (r matches Err(m) ==> m@
                    == res->Err_0)
            }),
    {
        let user = match self.users_by_id.get(&user_id) {
            Some(u) => u.duplicate(),
            None => {
                return Err("User not found".to_owned());
            },
        };

        proof {
            assert(old(self)@.has_user_id(user_id as int)) by {
                assert(old(self)@.users.contains_key(user.username@));
                assert(old(self)@.users[user.username@].id == user_id as int);
            }
            assert(old(self)@.username_of_id(user_id as int) == user.username@) by {
                let k = old(self)@.username_of_id(user_id as int);
                assert(old(self)@.users.contains_key(k) && old(self)@.users[k].id
                    == user_id as int);
            }
        }

        let session = Session {
            token: token.to_owned(),
            user_id,
            username: user.username,
            created_at: now,
            expires_at,
        };
        let stored = session.duplicate();

        if !self.sessions.contains_key(token) {
            let ghost oldnames = token_names(old(self).session_tokens@);
            self.session_tokens.push(token.to_owned());
            proof {
                assert(token_names(self.session_tokens@) =~= oldnames.push(token@));
                assert forall|x: int| 0 <= x < oldnames.len() implies oldnames[x] != token@ by {
                    assert(old(self).sessions@.contains_key(oldnames[x]));
                }
                assert forall|i: int, j: int|
                    0 <= i < j < token_names(self.session_tokens@).len() implies token_names(
                    self.session_tokens@,
                )[i] != token_names(self.session_tokens@)[j] by {
                    if j < oldnames.len() {
                        assert(oldnames.no_duplicates());
                    }
                }
            }
        }
        self.sessions.insert(token.to_owned(), session);

        proof {
            let (m2, res) = create_session_model(
                old(self)@,
                token@,
                user_id as int,
                expires_at as int,
                now as int,
            );
            assert(self@.sessions =~= m2.sessions);
            assert(self@.users =~= m2.users);
            let names = token_names(self.session_tokens@);
            let oldnames = token_names(old(self).session_tokens@);
            assert forall|i: int|
                0 <= i < self.session_tokens@.len() implies self.sessions@.contains_key(
                #[trigger] names[i],
            ) by {
                if i < oldnames.len() {
                    assert(old(self).sessions@.contains_key(oldnames[i]) || names[i] == token@);
                }
            }
            assert forall|t: Seq<char>|
                self.sessions@.contains_key(t) implies names.contains(t) by {
                if t == token@ {
                    if old(self).sessions@.contains_key(token@) {
                        assert(oldnames.contains(token@));
                        let w = choose|x: int| 0 <= x < oldnames.len() && oldnames[x] == token@;
                        assert(names[w] == token@);
                    } else {
                        assert(names[names.len() - 1] == token@);
                    }
                } else {
                    assert(old(self).sessions@.contains_key(t));
                    let w = choose|x: int| 0 <= x < oldnames.len() && oldnames[x] == t;
                    assert(names[w] == t);
                }
            }
            assert(stored@ == SessionModel {
                token: token@,
                user_id: user_id as int,
                username: old(self)@.username_of_id(user_id as int),
                created_at: now as int,
                expires_at: expires_at as int,
            });
        }

        Ok(stored)
    }

    /// Look a session up: a live one is returned, a dead one is dropped
    /// and none is returned.
    pub fn get_session_at(&mut self, token: &str, now: i64) -> (r: Result<Option<Session>, String>)
        requires
            old(self).wf(),
        ensures
            final(self).wf(),
            ({
                let (m2, res) = get_session_model(old(self)@, token@, now as int);
                final(self)@ == m2 && (match r {
                    Ok(Some(s)) => res == Some(s@),
                    Ok(None) => res is None,
                    Err(_) => false,
                })
            }),
    {
        let found = match self.sessions.get(token) {
            Some(s) => Some(s.duplicate()),
            None => None,
        };
        match found {
            Some(session) => {
                if session.expires_at > now {
                    proof {
                        let (m2, res) = get_session_model(old(self)@, token@, now as int);
                        assert(final(self)@ == m2);
                    }
                    Ok(Some(session))
                } else {
                    self.remove_session(token);
                    proof {
                        let (m2, res) = get_session_model(old(self)@, token@, now as int);
                        assert(self@.sessions =~= m2.sessions);
                        assert(self@.users =~= m2.users);
                    }
                    Ok(None)
                }
            },
            None => Ok(None),
        }
    }

    /// Delete a session; deleting an absent token is not an error.
    pub fn delete_session(&mut self, token: &str) -> (r: Result<(), String>)
        requires
            old(self).wf(),
        ensures
            final(self).wf(),
            final(self)@ == delete_session_model(old(self)@, token@),
            r is Ok,
    {
        self.remove_session(token);
        proof {
            assert(self@.sessions =~= delete_session_model(old(self)@, token@).sessions);
            assert(self@.users =~= old(self)@.users);
        }
        Ok(())
    }

    /// Remove a session and its token-list entry, if present.
    fn remove_session(&mut self, token: &str)
        requires
            old(self).wf(),
        ensures
            final(self).wf(),
            final(self).sessions@ == old(self).sessions@.remove(token@),
            final(self).users@ == old(self).users@,
            final(self).users_by_id@ == old(self).users_by_id@,
            final(self).next_user_id == old(self).next_user_id,
    {
        self.sessions.remove(token);
        let ghost oldnames = token_names(old(self).session_tokens@);

        let token_string = token.to_owned();
        let n = self.session_tokens.len();
        let mut found: Option<usize> = None;
        for i in 0..n
            invariant
                n == self.session_tokens@.len(),
                token_string@ == token@,
                token_names(self.session_tokens@) == oldnames,
                oldnames.len() == n,
                match found {
                    Some(j) => j < n && oldnames[j as int] == token@,
                    None => forall|j: int| 0 <= j < i ==> oldnames[j] != token@,
                },
        {
            if found.is_none() && self.session_tokens[i] == token_string {
                found = Some(i);
            }
        }

        match found {
            Some(j) => {
                self.session_tokens.swap_remove(j);
                proof {
                    let newnames = token_names(self.session_tokens@);
                    assert(newnames =~= oldnames.update(j as int, oldnames.last()).drop_last());
                    assert forall|i1: int, i2: int|
                        0 <= i1 < i2 < newnames.len() implies newnames[i1] != newnames[i2] by {
                        assert(oldnames.no_duplicates());
                    }
                    assert forall|i1: int|
                        0 <= i1 < newnames.len() implies self.sessions@.contains_key(
                        #[trigger] newnames[i1],
                    ) by {
                        assert(oldnames.no_duplicates());
                        assert(newnames[i1] != token@);
                        assert(oldnames.contains(newnames[i1]));
                    }
                    assert forall|t: Seq<char>|
                        self.sessions@.contains_key(t) implies newnames.contains(t) by {
                        assert(old(self).sessions@.contains_key(t));
                        assert(oldnames.contains(t));
                        let w = choose|x: int| 0 <= x < oldnames.len() && oldnames[x] == t;
                        assert(t != token@);
                        if w < j {
                            assert(newnames[w] == t);
                        } else if w == j {
                            assert(oldnames.no_duplicates());
                            assert(false);
                        } else if w == oldnames.len() - 1 {
                            assert(newnames[j as int] == t);
                        } else {
                            assert(newnames[w] == t);
                        }
                    }
                }
            },
            None => {
                proof {
                    if old(self).sessions@.contains_key(token@) {
                        assert(oldnames.contains(token@));
                        let w = choose|x: int| 0 <= x < oldnames.len() && oldnames[x] == token@;
                        assert(false);
                    }
                    assert(self.sessions@ =~= old(self).sessions@.remove(token@));
                }
            },
        }
        proof {
            assert(self.users@ == old(self).users@);
            assert(self@.users =~= old(self)@.users);
            assert(self@.next_id == old(self)@.next_id);
            assert forall|t: Seq<char>|
                self@.sessions.contains_key(t) implies (#[trigger] self@.sessions[t]).token
                == t by {
                assert(old(self).sessions@.contains_key(t));
                assert(old(self)@.sessions.contains_key(t));
                assert(self@.sessions[t] == old(self)@.sessions[t]);
            }
        }
    }

    /// Sweep out every session that is not live at `now`.
    pub fn delete_expired_sessions_at(&mut self, now: i64) -> (r: Result<(), String>)
        requires
            old(self).wf(),
        ensures
            final(self).wf(),
            final(self)@ == delete_expired_model(old(self)@, now as int),
            r is Ok,
    {
        let n = self.session_tokens.len();
        let ghost oldnames = token_names(old(self).session_tokens@);
        let mut kept: Vec<String> = Vec::new();

        for i in 0..n
            invariant
                n == old(self).session_tokens@.len(),
                oldnames == token_names(old(self).session_tokens@),
                self.session_tokens@ == old(self).session_tokens@,
                self.users@ == old(self).users@,
                self.users_by_id@ == old(self).users_by_id@,
                self.next_user_id == old(self).next_user_id,
                old(self).wf(),
                self.sessions@ =~= Map::<Seq<char>, Session>::new(
                    |t: Seq<char>|
                        old(self).sessions@.contains_key(t) && (old(self).sessions@[t].expires_at
                            > now || !oldnames.take(i as int).contains(t)),
                    |t: Seq<char>| old(self).sessions@[t],
                ),
                token_names(kept@).no_duplicates(),
                forall|t: Seq<char>|
                    token_names(kept@).contains(t) <==> (oldnames.take(i as int).contains(t)
                        && old(self).sessions@.contains_key(t) && old(self).sessions@[t].expires_at
                        > now),
        {
            let tok = self.session_tokens[i].clone();
            proof {
                assert(oldnames[i as int] == tok@);
                assert(old(self).sessions@.contains_key(tok@)) by {
                    assert(old(self).sessions@.contains_key(oldnames[i as int]));
                }
                assert(oldnames.no_duplicates());
                assert(!oldnames.take(i as int).contains(tok@)) by {
                    if oldnames.take(i as int).contains(tok@) {
                        let w = choose|x: int|
                            0 <= x < i && oldnames.take(i as int)[x] == tok@;
                        assert(oldnames[w] == tok@);
                    }
                }
                assert(oldnames.take(i + 1) =~= oldnames.take(i as int).push(tok@));
            }
            let ghost keptnames0 = token_names(kept@);
            match self.sessions.get(tok.as_str()) {
                Some(s) => {
                    if s.expires_at > now {
                        kept.push(tok);
                        proof {
                            assert(token_names(kept@) =~= keptnames0.push(tok@));
                            assert forall|i1: int, i2: int|
                                0 <= i1 < i2 < token_names(kept@).len() implies token_names(
                                kept@,
                            )[i1] != token_names(kept@)[i2] by {
                                if i2 < keptnames0.len() {
                                    assert(keptnames0.no_duplicates());
                                } else {
                                    assert(token_names(kept@)[i1] == keptnames0[i1]);
                                    if keptnames0.contains(tok@) {
                                        assert(oldnames.take(i as int).contains(tok@));
                                    }
                                }
                            }
                            assert forall|t: Seq<char>|
                                token_names(kept@).contains(t) implies (oldnames.take(
                                i + 1,
                            ).contains(t) && old(self).sessions@.contains_key(t) && old(
                                self,
                            ).sessions@[t].expires_at > now) by {
                                let w = choose|x: int|
                                    0 <= x < token_names(kept@).len() && token_names(kept@)[x]
                                        == t;
                                if w < keptnames0.len() {
                                    assert(keptnames0[w] == t);
                                    assert(keptnames0.contains(t));
                                    assert(oldnames.take(i as int).contains(t));
                                    let v = choose|x: int|
                                        0 <= x < i && oldnames.take(i as int)[x] == t;
                                    assert(oldnames.take(i + 1)[v] == t);
                                } else {
                                    assert(t == tok@);
                                    assert(oldnames.take(i + 1)[i as int] == tok@);
                                }
                            }
                            assert forall|t: Seq<char>|
                                (oldnames.take(i + 1).contains(t) && old(
                                    self,
                                ).sessions@.contains_key(t) && old(self).sessions@[t].expires_at
                                    > now) implies token_names(kept@).contains(t) by {
                                if t == tok@ {
                                    assert(token_names(kept@)[keptnames0.len() as int] == tok@);
                                } else {
                                    let v = choose|x: int|
                                        0 <= x < i + 1 && #[trigger] oldnames.take(i + 1)[x]
                                            == t;
                                    assert(oldnames.take(i as int)[v] == t);
                                    assert(keptnames0.contains(t));
                                    let w = choose|x: int|
                                        0 <= x < keptnames0.len() && keptnames0[x] == t;
                                    assert(token_names(kept@)[w] == t);
                                }
                            }
                        }
                    } else {
                        self.sessions.remove(tok.as_str());
                        proof {
                            assert forall|t: Seq<char>|
                                token_names(kept@).contains(t) implies (oldnames.take(
                                i + 1,
                            ).contains(t) && old(self).sessions@.contains_key(t) && old(
                                self,
                            ).sessions@[t].expires_at > now) by {
                                assert(oldnames.take(i as int).contains(t));
                                let v = choose|x: int|
                                    0 <= x < i && oldnames.take(i as int)[x] == t;
                                assert(oldnames.take(i + 1)[v] == t);
                            }
                        }
                    }
                },
                None => {
                    proof {
                        assert(old(self).sessions@[tok@].expires_at <= now);
                        assert(oldnames.take(i as int).contains(tok@));
                        assert(false);
                    }
                },
            }
            proof {
                assert forall|t: Seq<char>|
                    #[trigger] oldnames.take(i + 1).contains(t) == (oldnames.take(
                        i as int,
                    ).contains(t) || t == tok@) by {
                    take_step_contains(oldnames, i as int, t);
                }
                assert(self.sessions@ =~= Map::<Seq<char>, Session>::new(
                    |t: Seq<char>|
                        old(self).sessions@.contains_key(t) && (old(self).sessions@[t].expires_at
                            > now || !oldnames.take(i + 1).contains(t)),
                    |t: Seq<char>| old(self).sessions@[t],
                ));
            }
        }

        self.session_tokens = kept;

        proof {
            assert(oldnames.take(n as int) =~= oldnames);
            assert(self@.sessions =~= delete_expired_model(old(self)@, now as int).sessions) by {
                assert forall|t: Seq<char>|
                    old(self).sessions@.contains_key(t) && !(old(self).sessions@[t].expires_at
                        > now) implies oldnames.contains(t) by {
                    assert(old(self).sessions@.contains_key(t));
                }
            }
            assert(self@.users =~= old(self)@.users);
            let names = token_names(self.session_tokens@);
            assert forall|i1: int|
                0 <= i1 < self.session_tokens@.len() implies self.sessions@.contains_key(
                #[trigger] names[i1],
            ) by {
                assert(names.contains(names[i1]));
            }
        }

        Ok(())
    }
}

/// One more element of a prefix: membership grows by exactly that element.
proof fn take_step_contains(names: Seq<Seq<char>>, i: int, t: Seq<char>)
    requires
        0 <= i < names.len(),
    ensures
        names.take(i + 1).contains(t) == (names.take(i).contains(t) || t == names[i]),
{
    if names.take(i + 1).contains(t) {
        let v = choose|x: int| 0 <= x < i + 1 && #[trigger] names.take(i + 1)[x] == t;
        if v < i {
            assert(names.take(i)[v] == t);
        } else {
            assert(names.take(i + 1)[i] == names[i]);
        }
    }
    if names.take(i).contains(t) {
        let v = choose|x: int| 0 <= x < i && #[trigger] names.take(i)[x] == t;
        assert(names.take(i + 1)[v] == t);
    }
    if t == names[i] {
        assert(names.take(i + 1)[i] == t);
    }
}

} // verus!
