//! The user directory: which chat identity is registered under which name,
//! with which provisioned account, and whether it administers the service.

use crate::models::{lemma_views_push, views, NewTelegramUser, TelegramUser, TelegramUserView};
use vstd::prelude::*;
use vstd::string::*;

verus! {

/// Why the directory refused a change.
#[derive(Clone, Copy, Debug, PartialEq, Eq, Structural)]
pub enum DirectoryError {
    /// The chat identity already has a registration.
    AlreadyRegistered,
    /// The chat identity has no registration.
    NotRegistered,
    /// The identifiers of the table are used up.
    Exhausted,
}

pub const ALREADY_REGISTERED: &'static str = "the chat is already registered";

pub const NOT_REGISTERED: &'static str = "the chat is not registered";

pub const EXHAUSTED: &'static str = "no identifier is left";

impl DirectoryError {
    /// The words for this refusal.
    pub open spec fn text(self) -> Seq<char> {
        match self {
            DirectoryError::AlreadyRegistered => ALREADY_REGISTERED@,
            DirectoryError::NotRegistered => NOT_REGISTERED@,
            DirectoryError::Exhausted => EXHAUSTED@,
        }
    }

    /// Words this refusal.
    pub fn describe(self) -> (r: &'static str)
        ensures
            r@ == self.text(),
    {
        match self {
            DirectoryError::AlreadyRegistered => ALREADY_REGISTERED,
            DirectoryError::NotRegistered => NOT_REGISTERED,
            DirectoryError::Exhausted => EXHAUSTED,
        }
    }
}

/// The registrations of a directory, in insertion order.
pub struct DirectoryView {
    pub users: Seq<TelegramUserView>,
}

impl DirectoryView {
    /// The directory's invariant: row identifiers are positive and grow with
    /// every insertion, and a chat identity has at most one registration.
    pub open spec fn wf(self) -> bool {
        &&& forall|i: int| 0 <= i < self.users.len() ==> (#[trigger] self.users[i]).id > 0
        &&& forall|i: int, j: int|
            0 <= i < j < self.users.len() ==> (#[trigger] self.users[i]).id < (
            #[trigger] self.users[j]).id
        &&& forall|i: int, j: int|
            0 <= i < j < self.users.len() ==> (#[trigger] self.users[i]).telegram_id != (
            #[trigger] self.users[j]).telegram_id
    }

    /// The chat identity has a registration.
    pub open spec fn is_registered(self, tg_id: i64) -> bool {
        exists|i: int| 0 <= i < self.users.len() && (#[trigger] self.users[i]).telegram_id == tg_id
    }

    /// The position of the registration of a chat identity.
    pub open spec fn index_of(self, tg_id: i64) -> int {
        choose|i: int| 0 <= i < self.users.len() && (#[trigger] self.users[i]).telegram_id == tg_id
    }

    /// The registration of a chat identity.
    pub open spec fn user(self, tg_id: i64) -> TelegramUserView {
        self.users[self.index_of(tg_id)]
    }

    /// The chat identity is registered and holds the administrator flag.
    pub open spec fn is_admin(self, tg_id: i64) -> bool {
        self.is_registered(tg_id) && self.user(tg_id).admin
    }

    /// The display name under which a chat identity is registered; empty when it is not.
    pub open spec fn username(self, tg_id: i64) -> Seq<char> {
        if self.is_registered(tg_id) {
            self.user(tg_id).username
        } else {
            Seq::empty()
        }
    }

    /// The provisioned account of a chat identity; empty when there is none.
    pub open spec fn emby_id(self, tg_id: i64) -> Seq<char> {
        if self.is_registered(tg_id) {
            match self.user(tg_id).emby_user_id {
                Some(id) => id,
                None => Seq::empty(),
            }
        } else {
            Seq::empty()
        }
    }

    /// The identifier that the next registration will get.
    pub open spec fn next_id(self) -> int {
        if self.users.len() == 0 {
            1
        } else {
            self.users.last().id + 1
        }
    }

    /// Adds a registration without the administrator flag, unless the chat
    /// identity has one already.
    pub open spec fn register(
        self,
        telegram_id: i64,
        username: Seq<char>,
        emby_user_id: Seq<char>,
    ) -> (DirectoryView, Result<(), DirectoryError>) {
        if self.is_registered(telegram_id) {
            (self, Err(DirectoryError::AlreadyRegistered))
        } else if self.next_id() > i32::MAX {
            (self, Err(DirectoryError::Exhausted))
        } else {
            let row = TelegramUserView {
                id: self.next_id() as i32,
                telegram_id,
                username,
                admin: false,
                emby_user_id: Some(emby_user_id),
            };
            (DirectoryView { users: self.users.push(row) }, Ok(()))
        }
    }

    /// Removes the registration of a chat identity.
    pub open spec fn delete(self, tg_id: i64) -> (DirectoryView, Result<(), DirectoryError>) {
        if self.is_registered(tg_id) {
            (DirectoryView { users: self.users.remove(self.index_of(tg_id)) }, Ok(()))
        } else {
            (self, Err(DirectoryError::NotRegistered))
        }
    }

    /// In a well-formed directory a chat identity is found at one position only.
    pub proof fn lemma_index_of(self, tg_id: i64, i: int)
        requires
            self.wf(),
            0 <= i < self.users.len(),
            self.users[i].telegram_id == tg_id,
        ensures
            self.is_registered(tg_id),
            self.index_of(tg_id) == i,
    {
        let j = self.index_of(tg_id);
        assert(0 <= j < self.users.len() && self.users[j].telegram_id == tg_id);
        if i < j {
            assert(self.users[i].telegram_id != self.users[j].telegram_id);
        } else if j < i {
            assert(self.users[j].telegram_id != self.users[i].telegram_id);
        }
    }

    /// Registering keeps the invariant.
    pub proof fn lemma_register_wf(
        self,
        telegram_id: i64,
        username: Seq<char>,
        emby_user_id: Seq<char>,
    )
        requires
            self.wf(),
        ensures
            self.register(telegram_id, username, emby_user_id).0.wf(),
    {
        let after = self.register(telegram_id, username, emby_user_id).0;
        if self.register(telegram_id, username, emby_user_id).1 is Ok {
            let n = self.users.len() as int;
            assert forall|i: int, j: int| 0 <= i < j < after.users.len() implies (
            #[trigger] after.users[i]).id < (#[trigger] after.users[j]).id by {
                if j == n {
                    if i < n - 1 {
                        assert(self.users[i].id < self.users[n - 1].id);
                    }
                } else {
                    assert(self.users[i].id < self.users[j].id);
                }
            }
            assert forall|i: int, j: int| 0 <= i < j < after.users.len() implies (
            #[trigger] after.users[i]).telegram_id != (#[trigger] after.users[j]).telegram_id by {
                if j == n {
                    assert(self.users[i].telegram_id != telegram_id);
                } else {
                    assert(self.users[i].telegram_id != self.users[j].telegram_id);
                }
            }
            assert forall|i: int| 0 <= i < after.users.len() implies (#[trigger] after.users[i]).id
                > 0 by {
                if i < n {
                    assert(self.users[i].id > 0);
                } else if n > 0 {
                    assert(self.users[n - 1].id > 0);
                }
            }
        }
    }

    /// Registering leaves every registration at its position, and a new
    /// registration stands last.
    pub proof fn lemma_register_keeps_positions(
        self,
        telegram_id: i64,
        username: Seq<char>,
        emby_user_id: Seq<char>,
    )
        requires
            self.wf(),
        ensures
            forall|other: i64| #[trigger]
                self.is_registered(other) ==> self.register(
                    telegram_id,
                    username,
                    emby_user_id,
                ).0.is_registered(other) && self.register(
                    telegram_id,
                    username,
                    emby_user_id,
                ).0.index_of(other) == self.index_of(other),
            self.register(telegram_id, username, emby_user_id).1 is Ok ==> self.register(
                telegram_id,
                username,
                emby_user_id,
            ).0.is_registered(telegram_id) && self.register(
                telegram_id,
                username,
                emby_user_id,
            ).0.index_of(telegram_id) == self.users.len(),
    {
        let after = self.register(telegram_id, username, emby_user_id).0;
        self.lemma_register_wf(telegram_id, username, emby_user_id);
        assert forall|other: i64| #[trigger] self.is_registered(other) implies after.is_registered(
            other,
        ) && after.index_of(other) == self.index_of(other) by {
            let k = self.index_of(other);
            assert(0 <= k < self.users.len() && self.users[k].telegram_id == other);
            assert(after.users[k] == self.users[k]);
            after.lemma_index_of(other, k);
        }
        if self.register(telegram_id, username, emby_user_id).1 is Ok {
            let n = self.users.len() as int;
            assert(after.users[n].telegram_id == telegram_id);
            after.lemma_index_of(telegram_id, n);
        }
    }

    /// After a registration the registered chats are those registered
    /// before and, where the registration succeeded, the one registered.
    pub proof fn lemma_register_membership(
        self,
        telegram_id: i64,
        username: Seq<char>,
        emby_user_id: Seq<char>,
    )
        requires
            self.wf(),
        ensures
            forall|other: i64|
                (#[trigger] self.register(telegram_id, username, emby_user_id).0.is_registered(
                    other,
                )) == (self.is_registered(other) || (other == telegram_id && self.register(
                    telegram_id,
                    username,
                    emby_user_id,
                ).1 is Ok)),
    {
        let after = self.register(telegram_id, username, emby_user_id).0;
        self.lemma_register_keeps_positions(telegram_id, username, emby_user_id);
        assert forall|other: i64|
            (#[trigger] after.is_registered(other)) == (self.is_registered(other) || (other
                == telegram_id && self.register(telegram_id, username, emby_user_id).1 is Ok)) by {
            if after.is_registered(other) && !self.is_registered(other) {
                let i = after.index_of(other);
                assert(0 <= i < after.users.len() && after.users[i].telegram_id == other);
                if i < self.users.len() {
                    assert(self.users[i].telegram_id == other);
                }
            }
        }
    }

    /// Deleting keeps the invariant and leaves the chat identity unregistered.
    pub proof fn lemma_delete_wf(self, tg_id: i64)
        requires
            self.wf(),
        ensures
            self.delete(tg_id).0.wf(),
            !self.delete(tg_id).0.is_registered(tg_id),
            forall|other: i64|
                other != tg_id ==> (#[trigger] self.delete(tg_id).0.is_registered(other)
                    == self.is_registered(other)),
    {
        let after = self.delete(tg_id).0;
        if self.is_registered(tg_id) {
            let k = self.index_of(tg_id);
            assert(0 <= k < self.users.len() && self.users[k].telegram_id == tg_id);
            assert forall|i: int| 0 <= i < after.users.len() implies #[trigger] after.users[i]
                == self.users[if i < k {
                i
            } else {
                i + 1
            }] by {}
            assert forall|i: int, j: int| 0 <= i < j < after.users.len() implies (
            #[trigger] after.users[i]).id < (#[trigger] after.users[j]).id by {
                let a = if i < k {
                    i
                } else {
                    i + 1
                };
                let b = if j < k {
                    j
                } else {
                    j + 1
                };
                assert(self.users[a].id < self.users[b].id);
            }
            assert forall|i: int, j: int| 0 <= i < j < after.users.len() implies (
            #[trigger] after.users[i]).telegram_id != (#[trigger] after.users[j]).telegram_id by {
                let a = if i < k {
                    i
                } else {
                    i + 1
                };
                let b = if j < k {
                    j
                } else {
                    j + 1
                };
                assert(self.users[a].telegram_id != self.users[b].telegram_id);
            }
            assert forall|i: int| 0 <= i < after.users.len() implies (#[trigger] after.users[i]).id
                > 0 by {
                let a = if i < k {
                    i
                } else {
                    i + 1
                };
                assert(self.users[a].id > 0);
            }
            if after.is_registered(tg_id) {
                let i = after.index_of(tg_id);
                let a = if i < k {
                    i
                } else {
                    i + 1
                };
                assert(self.users[a].telegram_id == tg_id);
                self.lemma_index_of(tg_id, a);
            }
            assert forall|other: i64| other != tg_id implies (#[trigger] after.is_registered(other)
                == self.is_registered(other)) by {
                if after.is_registered(other) {
                    let i = after.index_of(other);
                    let a = if i < k {
                        i
                    } else {
                        i + 1
                    };
                    assert(self.users[a].telegram_id == other);
                }
                if self.is_registered(other) {
                    let a = self.index_of(other);
                    let i = if a < k {
                        a
                    } else {
                        a - 1
                    };
                    assert(after.users[i].telegram_id == other);
                }
            }
        } else {
            assert forall|other: i64| other != tg_id implies (#[trigger] after.is_registered(other)
                == self.is_registered(other)) by {}
        }
    }
}

/// A chat identity has one registration at most: once it is registered,
/// every further registration of it is refused and changes nothing; and a
/// registration that succeeds makes the chat a registered one that does not
/// administer the service.
pub proof fn law_one_registration_per_chat(
    directory: DirectoryView,
    telegram_id: i64,
    username: Seq<char>,
    emby_user_id: Seq<char>,
    other_name: Seq<char>,
    other_id: Seq<char>,
)
    requires
        directory.wf(),
    ensures
        directory.register(telegram_id, username, emby_user_id).0.wf(),
        directory.is_registered(telegram_id) ==> directory.register(
            telegram_id,
            username,
            emby_user_id,
        ) == (directory, Err::<(), DirectoryError>(DirectoryError::AlreadyRegistered)),
        directory.register(telegram_id, username, emby_user_id).1 is Ok ==> {
            let after = directory.register(telegram_id, username, emby_user_id).0;
            &&& after.is_registered(telegram_id)
            &&& after.username(telegram_id) == username
            &&& after.emby_id(telegram_id) == emby_user_id
            &&& !after.is_admin(telegram_id)
            &&& after.register(telegram_id, other_name, other_id) == (
                after,
                Err::<(), DirectoryError>(DirectoryError::AlreadyRegistered),
            )
        },
{
    directory.lemma_register_wf(telegram_id, username, emby_user_id);
    if directory.register(telegram_id, username, emby_user_id).1 is Ok {
        let after = directory.register(telegram_id, username, emby_user_id).0;
        let n = directory.users.len() as int;
        assert(after.users[n].telegram_id == telegram_id);
        after.lemma_index_of(telegram_id, n);
    }
}

/// The in-memory user directory.
pub struct UserDirectory {
    users: Vec<TelegramUser>,
}

impl View for UserDirectory {
    type V = DirectoryView;

    closed spec fn view(&self) -> DirectoryView {
        DirectoryView { users: views(self.users@) }
    }
}

impl UserDirectory {
    /// The invariant that every operation expects and keeps.
    pub open spec fn wf(&self) -> bool {
        self@.wf()
    }

    /// A directory without registrations.
    pub fn new() -> (directory: UserDirectory)
        ensures
            directory.wf(),
            directory@.users.len() == 0,
    {
        UserDirectory { users: Vec::new() }
    }

    /// A directory holding the given rows, if they satisfy the invariant.
    pub fn from_rows(rows: Vec<TelegramUser>) -> (r: Option<UserDirectory>)
        ensures
            match r {
                Some(directory) => directory.wf() && directory@.users == views(rows@),
                None => !(DirectoryView { users: views(rows@) }).wf(),
            },
    {
        let ghost all = views(rows@);
        let mut j: usize = 0;
        while j < rows.len()
            invariant
                j <= rows.len(),
                all == views(rows@),
                (DirectoryView { users: all.take(j as int) }).wf(),
            decreases rows.len() - j,
        {
            if rows[j].id <= 0 {
                assert(!(all[j as int].id > 0));
                return None;
            }
            if j > 0 && rows[j - 1].id >= rows[j].id {
                assert(!(all[j - 1].id < all[j as int].id));
                return None;
            }
            let mut i: usize = 0;
            while i < j
                invariant
                    i <= j < rows.len(),
                    all == views(rows@),
                    forall|k: int|
                        0 <= k < i ==> (#[trigger] all[k]).telegram_id != all[j as int].telegram_id,
                decreases j - i,
            {
                if rows[i].telegram_id == rows[j].telegram_id {
                    assert(!(all[i as int].telegram_id != all[j as int].telegram_id));
                    return None;
                }
                i += 1;
            }
            proof {
                let shorter = all.take(j as int);
                let longer = all.take(j + 1);
                assert forall|a: int, b: int| 0 <= a < b < longer.len() implies (
                #[trigger] longer[a]).id < (#[trigger] longer[b]).id by {
                    if b == j {
                        if a < j - 1 {
                            assert(shorter[a].id < shorter[j - 1].id);
                        }
                    } else {
                        assert(shorter[a].id < shorter[b].id);
                    }
                }
                assert forall|a: int, b: int| 0 <= a < b < longer.len() implies (
                #[trigger] longer[a]).telegram_id != (#[trigger] longer[b]).telegram_id by {
                    if b == j {
                        assert(all[a].telegram_id != all[j as int].telegram_id);
                    } else {
                        assert(shorter[a].telegram_id != shorter[b].telegram_id);
                    }
                }
                assert forall|a: int| 0 <= a < longer.len() implies (#[trigger] longer[a]).id
                    > 0 by {
                    if a < j {
                        assert(shorter[a].id > 0);
                    }
                }
            }
            j += 1;
        }
        assert(all.take(j as int) == all);
        Some(UserDirectory { users: rows })
    }

    /// Adds a registration; see [`DirectoryView::register`].
    pub fn insert(&mut self, user: NewTelegramUser) -> (r: Result<(), DirectoryError>)
        requires
            old(self).wf(),
        ensures
            final(self).wf(),
            final(self)@ == old(self)@.register(
                user@.telegram_id,
                user@.username,
                user@.emby_user_id,
            ).0,
            r == old(self)@.register(user@.telegram_id, user@.username, user@.emby_user_id).1,
            r is Ok ==> final(self)@.is_registered(user@.telegram_id) && final(self)@.index_of(
                user@.telegram_id,
            ) == old(self)@.users.len(),
            forall|other: i64| #[trigger]
                old(self)@.is_registered(other) ==> final(self)@.is_registered(other)
                    && final(self)@.index_of(other) == old(self)@.index_of(other),
    {
        proof {
            self@.lemma_register_keeps_positions(
                user@.telegram_id,
                user@.username,
                user@.emby_user_id,
            );
        }
        if self.position(user.telegram_id).is_some() {
            return Err(DirectoryError::AlreadyRegistered);
        }
        let n = self.users.len();
        let id: i32 = if n == 0 {
            1
        } else {
            let last = self.users[n - 1].id;
            assert(self@.users.last().id == last);
            if last == i32::MAX {
                return Err(DirectoryError::Exhausted);
            }
            last + 1
        };
        proof {
            self@.lemma_register_wf(user@.telegram_id, user@.username, user@.emby_user_id);
        }
        let row = TelegramUser {
            id,
            telegram_id: user.telegram_id,
            username: user.username,
            admin: false,
            emby_user_id: Some(user.emby_user_id),
        };
        proof {
            lemma_views_push(self.users@, row);
        }
        self.users.push(row);
        Ok(())
    }

    /// A copy of the registration of a chat identity, if it has one.
    pub fn user(&self, tg_id: i64) -> (r: Option<TelegramUser>)
        requires
            self.wf(),
        ensures
            match r {
                Some(row) => self@.is_registered(tg_id) && row@ == self@.user(tg_id),
                None => !self@.is_registered(tg_id),
            },
    {
        match self.position(tg_id) {
            Some(i) => Some(self.users[i].duplicate()),
            None => None,
        }
    }

    /// A copy of every registration, in insertion order.
    pub fn rows(&self) -> (rows: Vec<TelegramUser>)
        ensures
            views(rows@) == self@.users,
    {
        let mut out: Vec<TelegramUser> = Vec::new();
        let mut i: usize = 0;
        while i < self.users.len()
            invariant
                i <= self.users.len(),
                views(out@) == views(self.users@).take(i as int),
            decreases self.users.len() - i,
        {
            let row = self.users[i].duplicate();
            proof {
                lemma_views_push(out@, row);
                assert(views(self.users@).take(i + 1) == views(self.users@).take(i as int).push(
                    row@,
                ));
            }
            out.push(row);
            i += 1;
        }
        assert(views(self.users@).take(i as int) == views(self.users@));
        out
    }

    /// Where the registration of a chat identity stands.
    fn position(&self, tg_id: i64) -> (r: Option<usize>)
        requires
            self.wf(),
        ensures
            match r {
                Some(i) => i < self@.users.len() && self@.users[i as int].telegram_id == tg_id
                    && self@.is_registered(tg_id) && self@.index_of(tg_id) == i
                    && self.users@[i as int]@ == self@.user(tg_id),
                None => !self@.is_registered(tg_id),
            },
    {
        let mut i: usize = 0;
        while i < self.users.len()
            invariant
                i <= self.users.len(),
                self.wf(),
                forall|j: int| 0 <= j < i ==> (#[trigger] self@.users[j]).telegram_id != tg_id,
            decreases self.users.len() - i,
        {
            if self.users[i].telegram_id == tg_id {
                proof {
                    self@.lemma_index_of(tg_id, i as int);
                }
                return Some(i);
            }
            i += 1;
        }
        None
    }
}

/// Whether the chat identity is registered and holds the administrator flag.
pub fn check_admin(directory: &UserDirectory, tg_id: i64) -> (r: bool)
    requires
        directory.wf(),
    ensures
        r == directory@.is_admin(tg_id),
{
    match directory.position(tg_id) {
        Some(i) => directory.users[i].admin,
        None => false,
    }
}

/// Whether the chat identity has a registration.
pub fn check_registered(directory: &UserDirectory, tg_id: i64) -> (r: bool)
    requires
        directory.wf(),
    ensures
        r == directory@.is_registered(tg_id),
{
    directory.position(tg_id).is_some()
}

/// Records that `telegram_id` was provisioned as `emby_user_id` under the
/// display name `username`. A chat identity that is registered already keeps
/// its registration, and the call is refused.
pub fn register(
    directory: &mut UserDirectory,
    telegram_id: i64,
    username: String,
    emby_user_id: String,
) -> (r: Result<(), DirectoryError>)
    requires
        old(directory).wf(),
    ensures
        final(directory).wf(),
        final(directory)@ == old(directory)@.register(telegram_id, username@, emby_user_id@).0,
        r == old(directory)@.register(telegram_id, username@, emby_user_id@).1,
        r is Ok ==> final(directory)@.is_registered(telegram_id) && final(directory)@.index_of(
            telegram_id,
        ) == old(directory)@.users.len(),
        forall|other: i64| #[trigger]
            old(directory)@.is_registered(other) ==> final(directory)@.is_registered(other)
                && final(directory)@.index_of(other) == old(directory)@.index_of(other),
{
    directory.insert(NewTelegramUser { telegram_id, username, emby_user_id })
}

/// The provisioned account of the chat identity, or the empty string when it
/// has none.
pub fn get_emby_id(directory: &UserDirectory, tg_id: i64) -> (r: String)
    requires
        directory.wf(),
    ensures
        r@ == directory@.emby_id(tg_id),
{
    match directory.position(tg_id) {
        Some(i) => match &directory.users[i].emby_user_id {
            Some(id) => id.clone(),
            None => String::new(),
        },
        None => String::new(),
    }
}

/// The display name of the chat identity, or the empty string when it is not
/// registered.
pub fn get_username(directory: &UserDirectory, tg_id: i64) -> (r: String)
    requires
        directory.wf(),
    ensures
        r@ == directory@.username(tg_id),
{
    match directory.position(tg_id) {
        Some(i) => directory.users[i].username.clone(),
        None => String::new(),
    }
}

/// Removes the registration of the chat identity.
pub fn delete_user(directory: &mut UserDirectory, tg_id: i64) -> (r: Result<(), DirectoryError>)
    requires
        old(directory).wf(),
    ensures
        final(directory).wf(),
        final(directory)@ == old(directory)@.delete(tg_id).0,
        r == old(directory)@.delete(tg_id).1,
        !final(directory)@.is_registered(tg_id),
        forall|other: i64|
            other != tg_id ==> (#[trigger] final(directory)@.is_registered(other)) == old(
                directory,
            )@.is_registered(other),
{
    proof {
        directory@.lemma_delete_wf(tg_id);
    }
    match directory.position(tg_id) {
        Some(i) => {
            let ghost before = directory.users@;
            directory.users.remove(i);
            assert(views(before.remove(i as int)) =~= views(before).remove(i as int));
            Ok(())
        },
        None => Err(DirectoryError::NotRegistered),
    }
}

} // verus!
