//! What one connection to a node keeps track of.

use crate::frame::request::startup::{startup_options, Startup};
use crate::frame::response::Response;
use crate::frame::response::result::Result as QueryResult;
use crate::text::{str_equal, to_chars};
use crate::transport::errors::{BadKeyspaceName, QueryError};
use std::collections::HashMap;
use vstd::prelude::*;
use vstd::string::StringExecFns;

verus! {

/// A way to compress the bodies of frames.
#[derive(Debug, Clone, Copy, PartialEq, Eq, Structural)]
pub enum Compression {
    Lz4,
    Snappy,
}

impl Compression {
    /// The name of the algorithm in a `STARTUP` message, and among the
    /// options of the server.
    pub open spec fn name(self) -> Seq<char> {
        match self {
            Compression::Lz4 => "lz4"@,
            Compression::Snappy => "snappy"@,
        }
    }

    /// The name of the algorithm.
    pub fn to_str(self) -> (r: &'static str)
        ensures
            r@ == self.name(),
    {
        match self {
            Compression::Lz4 => "lz4",
            Compression::Snappy => "snappy",
        }
    }
}

/// What a connection is set up with.
#[derive(Debug, Clone, Copy, PartialEq, Eq, Structural)]
pub struct ConnectionConfig {
    /// The compression to ask for.
    pub compression: Option<Compression>,
    /// Whether segments are sent as soon as they are written.
    pub tcp_nodelay: bool,
}

/// What a [`BadKeyspaceName`] says.
pub enum BadKeyspaceNameView {
    Empty,
    TooLong(Seq<char>, usize),
    IllegalCharacter(Seq<char>, char),
}

impl View for BadKeyspaceName {
    type V = BadKeyspaceNameView;

    open spec fn view(&self) -> BadKeyspaceNameView {
        match self {
            BadKeyspaceName::Empty => BadKeyspaceNameView::Empty,
            BadKeyspaceName::TooLong(name, len) => BadKeyspaceNameView::TooLong(name@, *len),
            BadKeyspaceName::IllegalCharacter(name, c) => BadKeyspaceNameView::IllegalCharacter(
                name@,
                *c,
            ),
        }
    }
}

/// The greatest number of characters in the name of a keyspace.
pub const MAX_KEYSPACE_NAME_LEN: usize = 48;

/// A letter of the Latin alphabet, a digit or an underscore.
pub open spec fn is_plain_name_char(c: char) -> bool {
    ('a' <= c <= 'z') || ('A' <= c <= 'Z') || ('0' <= c <= '9') || c == '_'
}

/// A printable ASCII character other than the double quote, which encloses
/// a name that is case sensitive.
pub open spec fn is_quoted_name_char(c: char) -> bool {
    ' ' <= c <= '~' && c != '"'
}

/// The character may stand in the name of a keyspace.
pub open spec fn is_name_char(c: char, case_sensitive: bool) -> bool {
    if case_sensitive {
        is_quoted_name_char(c)
    } else {
        is_plain_name_char(c)
    }
}

/// The first character from position `from` on that may not stand in the
/// name of a keyspace.
pub open spec fn first_illegal_char(name: Seq<char>, case_sensitive: bool, from: nat) -> Option<
    char,
>
    decreases name.len() - from,
{
    if from >= name.len() {
        None
    } else if !is_name_char(name[from as int], case_sensitive) {
        Some(name[from as int])
    } else {
        first_illegal_char(name, case_sensitive, from + 1)
    }
}

/// What is wrong with a name for a keyspace, if anything: it is empty; or
/// it has more than 48 characters; or it holds a character that may not
/// stand in it.
pub open spec fn keyspace_name_fault(name: Seq<char>, case_sensitive: bool) -> Option<
    BadKeyspaceNameView,
> {
    if name.len() == 0 {
        Some(BadKeyspaceNameView::Empty)
    } else if name.len() > MAX_KEYSPACE_NAME_LEN {
        Some(BadKeyspaceNameView::TooLong(name, name.len() as usize))
    } else {
        match first_illegal_char(name, case_sensitive, 0) {
            Some(c) => Some(BadKeyspaceNameView::IllegalCharacter(name, c)),
            None => None,
        }
    }
}

/// A name without a fault holds only characters that may stand in it.
pub proof fn lemma_no_fault_all_legal(name: Seq<char>, case_sensitive: bool, from: nat)
    requires
        first_illegal_char(name, case_sensitive, from) is None,
    ensures
        forall|i: int| from <= i < name.len() ==> is_name_char(#[trigger] name[i], case_sensitive),
    decreases name.len() - from,
{
    if from < name.len() {
        lemma_no_fault_all_legal(name, case_sensitive, from + 1);
    }
}

/// The name of a keyspace that has been checked.
#[derive(Debug)]
pub struct VerifiedKeyspaceName {
    name: String,
    is_case_sensitive: bool,
}

/// What a [`VerifiedKeyspaceName`] says.
pub struct VerifiedKeyspaceNameView {
    pub name: Seq<char>,
    pub is_case_sensitive: bool,
}

impl View for VerifiedKeyspaceName {
    type V = VerifiedKeyspaceNameView;

    closed spec fn view(&self) -> VerifiedKeyspaceNameView {
        VerifiedKeyspaceNameView { name: self.name@, is_case_sensitive: self.is_case_sensitive }
    }
}

fn is_name_char_exec(c: char, case_sensitive: bool) -> (r: bool)
    ensures
        r == is_name_char(c, case_sensitive),
{
    if case_sensitive {
        ' ' <= c && c <= '~' && c != '"'
    } else {
        ('a' <= c && c <= 'z') || ('A' <= c && c <= 'Z') || ('0' <= c && c <= '9') || c == '_'
    }
}

impl VerifiedKeyspaceName {
    #[verifier::type_invariant]
    spec fn inv(self) -> bool {
        keyspace_name_fault(self.name@, self.is_case_sensitive) is None
    }

    /// Checks a name for a keyspace. A name that is case sensitive will be
    /// put between double quotes.
    pub fn new(keyspace_name: String, case_sensitive: bool) -> (r: Result<Self, BadKeyspaceName>)
        ensures
            match r {
                Ok(verified) => keyspace_name_fault(keyspace_name@, case_sensitive) is None
                    && verified@ == (VerifiedKeyspaceNameView {
                    name: keyspace_name@,
                    is_case_sensitive: case_sensitive,
                }),
                Err(e) => keyspace_name_fault(keyspace_name@, case_sensitive) == Some(e@),
            },
    {
        let chars = to_chars(keyspace_name.as_str());
        if chars.len() == 0 {
            return Err(BadKeyspaceName::Empty);
        }
        if chars.len() > MAX_KEYSPACE_NAME_LEN {
            return Err(BadKeyspaceName::TooLong(keyspace_name, chars.len()));
        }
        let mut i: usize = 0;
        while i < chars.len()
            invariant
                i <= chars@.len(),
                0 < chars@.len() <= MAX_KEYSPACE_NAME_LEN,
                chars@ == keyspace_name@,
                first_illegal_char(chars@, case_sensitive, 0) == first_illegal_char(
                    chars@,
                    case_sensitive,
                    i as nat,
                ),
            decreases chars@.len() - i,
        {
            let c = chars[i];
            if !is_name_char_exec(c, case_sensitive) {
                return Err(BadKeyspaceName::IllegalCharacter(keyspace_name, c));
            }
            i += 1;
        }
        Ok(VerifiedKeyspaceName { name: keyspace_name, is_case_sensitive: case_sensitive })
    }

    /// The name, which is one without a fault: not empty, of at most 48
    /// characters, each of which may stand in it.
    pub fn as_str(&self) -> (r: &str)
        ensures
            r@ == self@.name,
            keyspace_name_fault(self@.name, self@.is_case_sensitive) is None,
            0 < r@.len() <= MAX_KEYSPACE_NAME_LEN,
            forall|i: int|
                0 <= i < r@.len() ==> is_name_char(#[trigger] r@[i], self@.is_case_sensitive),
    {
        proof {
            use_type_invariant(self);
            lemma_no_fault_all_legal(self.name@, self.is_case_sensitive, 0);
        }
        self.name.as_str()
    }

    /// Whether the name is case sensitive.
    pub fn is_case_sensitive(&self) -> (r: bool)
        ensures
            r == self@.is_case_sensitive,
    {
        self.is_case_sensitive
    }

    /// The statement that makes the keyspace the current one: `USE` and the
    /// name, between double quotes if it is case sensitive.
    pub fn use_statement(&self) -> (r: String)
        ensures
            r@ == use_statement_of(self@),
    {
        if self.is_case_sensitive {
            let mut text = String::from_str("USE \"");
            text.append(self.name.as_str());
            text.append("\"");
            text
        } else {
            let mut text = String::from_str("USE ");
            text.append(self.name.as_str());
            text
        }
    }
}

impl Clone for VerifiedKeyspaceName {
    fn clone(&self) -> (r: Self)
        ensures
            r@ == self@,
    {
        proof {
            use_type_invariant(self);
        }
        VerifiedKeyspaceName {
            name: self.name.clone(),
            is_case_sensitive: self.is_case_sensitive,
        }
    }
}

/// The number of stream ids of a connection: the ids from 0 up to, and
/// without, this number.
pub const STREAM_IDS: u16 = 0x8000;

/// The stream ids of a connection that are in use, and who waits for the
/// response on each. A request takes an id that is free and leaves its
/// waiter; the response, a timeout or the end of the connection gives the
/// waiter back and frees the id.
pub struct StreamTable<W> {
    next_fresh: u16,
    recycled: Vec<i16>,
    waiters: HashMap<i16, W>,
}

/// The ids that an allocator has given out and not got back: those below
/// the next fresh id that are not among the recycled ones.
pub open spec fn ids_given_out(next_fresh: u16, recycled: Seq<i16>) -> Set<i16> {
    Set::new(|id: i16| 0 <= id < next_fresh && !recycled.contains(id))
}

/// The ids that are free are below the number of ids, each once, and the
/// ids in use are the ids for which a waiter is kept.
pub open spec fn table_consistent<W>(
    next_fresh: u16,
    recycled: Seq<i16>,
    waiters: Map<i16, W>,
) -> bool {
    &&& next_fresh <= STREAM_IDS
    &&& recycled.no_duplicates()
    &&& forall|i: int| 0 <= i < recycled.len() ==> 0 <= #[trigger] recycled[i] < next_fresh
    &&& waiters.dom() == ids_given_out(next_fresh, recycled)
}

impl<W> StreamTable<W> {
    /// The ids that the allocator has given out and not got back.
    pub closed spec fn in_use(&self) -> Set<i16> {
        ids_given_out(self.next_fresh, self.recycled@)
    }

    /// The waiters, by the stream id on which each waits.
    pub closed spec fn waiters(&self) -> Map<i16, W> {
        self.waiters@
    }

    #[verifier::type_invariant]
    spec fn inv(self) -> bool {
        table_consistent(self.next_fresh, self.recycled@, self.waiters@)
    }

    /// A table in which no id is in use.
    pub fn new() -> (r: Self)
        ensures
            r.in_use() == Set::<i16>::empty(),
            r.waiters() == Map::<i16, W>::empty(),
    {
        let recycled: Vec<i16> = Vec::new();
        let waiters: HashMap<i16, W> = HashMap::new();
        assert(ids_given_out(0, recycled@) =~= Set::<i16>::empty());
        assert(waiters@.dom() =~= ids_given_out(0, recycled@));
        StreamTable { next_fresh: 0, recycled, waiters }
    }

    /// The ids in use are those on which someone waits, and all of them are
    /// stream ids of a request.
    pub fn check(&self)
        ensures
            self.in_use() == self.waiters().dom(),
            forall|id: i16| self.in_use().contains(id) ==> 0 <= id < STREAM_IDS,
    {
        proof {
            use_type_invariant(self);
        }
    }

    /// Tells whether someone waits on a stream id.
    pub fn is_in_use(&self, id: i16) -> (r: bool)
        ensures
            r == self.in_use().contains(id),
            r == self.waiters().contains_key(id),
    {
        broadcast use vstd::std_specs::hash::group_hash_axioms;

        proof {
            use_type_invariant(self);
        }
        self.waiters.contains_key(&id)
    }

    /// Takes a free stream id for a request and keeps the waiter for its
    /// response. When all ids are in use, the waiter is handed back.
    pub fn register(&mut self, waiter: W) -> (r: Result<i16, W>)
        ensures
            match r {
                Ok(id) => !old(self).in_use().contains(id) && 0 <= id < STREAM_IDS
                    && final(self).in_use() == old(self).in_use().insert(id)
                    && final(self).waiters() == old(self).waiters().insert(id, waiter),
                Err(w) => w == waiter && final(self).in_use() == old(self).in_use()
                    && final(self).waiters() == old(self).waiters() && (forall|id: i16|
                    0 <= id < STREAM_IDS ==> old(self).in_use().contains(id)),
            },
            final(self).in_use() == final(self).waiters().dom(),
    {
        broadcast use vstd::std_specs::hash::group_hash_axioms;

        proof {
            use_type_invariant(&*self);
        }
        let mut taken = StreamTable::new();
        core::mem::swap(self, &mut taken);
        let StreamTable { next_fresh, recycled, waiters } = taken;
        let mut recycled = recycled;
        let mut waiters = waiters;
        let ghost before = old(self).in_use();
        let ghost old_recycled = recycled@;
        match recycled.pop() {
            Some(id) => {
                waiters.insert(id, waiter);
                proof {
                    assert(old_recycled[old_recycled.len() - 1] == id);
                    assert(!recycled@.contains(id)) by {
                        if recycled@.contains(id) {
                            let i = choose|i: int| 0 <= i < recycled@.len() && recycled@[i] == id;
                            assert(old_recycled[i] == id);
                        }
                    }
                    assert forall|other: i16| #[trigger]
                        recycled@.contains(other) <==> old_recycled.contains(other) && other
                            != id by {
                        if recycled@.contains(other) {
                            let i = choose|i: int|
                                0 <= i < recycled@.len() && recycled@[i] == other;
                            assert(old_recycled[i] == other);
                        }
                        if old_recycled.contains(other) && other != id {
                            let i = choose|i: int|
                                0 <= i < old_recycled.len() && old_recycled[i] == other;
                            assert(recycled@[i] == other);
                        }
                    }
                    assert(ids_given_out(next_fresh, recycled@) =~= before.insert(id));
                    assert(waiters@.dom() =~= ids_given_out(next_fresh, recycled@));
                    assert(recycled@.no_duplicates());
                }
                *self = StreamTable { next_fresh, recycled, waiters };
                Ok(id)
            },
            None => {
                if next_fresh < STREAM_IDS {
                    let id = next_fresh as i16;
                    waiters.insert(id, waiter);
                    proof {
                        assert(recycled@ =~= Seq::<i16>::empty());
                        assert(ids_given_out((next_fresh + 1) as u16, recycled@) =~= before.insert(
                            id,
                        ));
                        assert(waiters@.dom() =~= ids_given_out(
                            (next_fresh + 1) as u16,
                            recycled@,
                        ));
                    }
                    *self = StreamTable { next_fresh: next_fresh + 1, recycled, waiters };
                    Ok(id)
                } else {
                    proof {
                        assert(recycled@ =~= Seq::<i16>::empty());
                        assert forall|id: i16| 0 <= id < STREAM_IDS implies before.contains(
                            id) by {}
                    }
                    *self = StreamTable { next_fresh, recycled, waiters };
                    Err(waiter)
                }
            },
        }
    }

    /// Gives back the waiter of a stream id and frees the id: for a
    /// response that has arrived, or a request that is given up. Where
    /// nobody waits on the id, nothing changes.
    pub fn take(&mut self, id: i16) -> (r: Option<W>)
        ensures
            match r {
                Some(waiter) => old(self).waiters().contains_key(id)
                    && waiter == old(self).waiters()[id],
                None => !old(self).waiters().contains_key(id),
            },
            final(self).waiters() == old(self).waiters().remove(id),
            final(self).in_use() == old(self).in_use().remove(id),
            final(self).in_use() == final(self).waiters().dom(),
    {
        broadcast use vstd::std_specs::hash::group_hash_axioms;

        proof {
            use_type_invariant(&*self);
        }
        let mut taken = StreamTable::new();
        core::mem::swap(self, &mut taken);
        let StreamTable { next_fresh, recycled, waiters } = taken;
        let mut recycled = recycled;
        let mut waiters = waiters;
        let ghost before = old(self).in_use();
        let ghost old_recycled = recycled@;
        let found = waiters.remove(&id);
        if found.is_some() {
            assert(before.contains(id));
            recycled.push(id);
            proof {
                assert forall|i: int, j: int|
                    0 <= i < recycled@.len() && 0 <= j < recycled@.len() && i
                        != j implies recycled@[i] != recycled@[j] by {
                    if i == old_recycled.len() {
                        assert(old_recycled.contains(recycled@[j]));
                    } else if j == old_recycled.len() {
                        assert(old_recycled.contains(recycled@[i]));
                    }
                }
                assert forall|other: i16| #[trigger]
                    recycled@.contains(other) <==> old_recycled.contains(other) || other
                        == id by {
                    if recycled@.contains(other) {
                        let i = choose|i: int| 0 <= i < recycled@.len() && recycled@[i] == other;
                        if i < old_recycled.len() {
                            assert(old_recycled[i] == other);
                        }
                    }
                    if old_recycled.contains(other) {
                        let i = choose|i: int|
                            0 <= i < old_recycled.len() && old_recycled[i] == other;
                        assert(recycled@[i] == other);
                    }
                    if other == id {
                        assert(recycled@[old_recycled.len() as int] == id);
                    }
                }
            }
        }
        proof {
            assert(ids_given_out(next_fresh, recycled@) =~= before.remove(id));
            assert(waiters@.dom() =~= ids_given_out(next_fresh, recycled@));
        }
        *self = StreamTable { next_fresh, recycled, waiters };
        found
    }

    /// Ends the table with its connection: every waiter is handed back, in
    /// the order of the stream ids, and no id is in use.
    pub fn close(&mut self) -> (r: Vec<(i16, W)>)
        ensures
            final(self).in_use() == Set::<i16>::empty(),
            final(self).waiters() == Map::<i16, W>::empty(),
            forall|i: int|
                0 <= i < r@.len() ==> old(self).waiters().contains_key((#[trigger] r@[i]).0)
                    && old(self).waiters()[r@[i].0] == r@[i].1,
            forall|id: i16|
                old(self).waiters().contains_key(id) ==> exists|i: int|
                    0 <= i < r@.len() && (#[trigger] r@[i]).0 == id,
            forall|i: int, j: int| 0 <= i < j < r@.len() ==> r@[i].0 < r@[j].0,
    {
        broadcast use vstd::std_specs::hash::group_hash_axioms;

        proof {
            use_type_invariant(&*self);
        }
        let mut taken = StreamTable::new();
        core::mem::swap(self, &mut taken);
        let StreamTable { next_fresh, recycled, waiters } = taken;
        let mut waiters = waiters;
        let ghost all = waiters@;
        let mut out: Vec<(i16, W)> = Vec::new();
        let mut next: u16 = 0;
        while next < next_fresh
            invariant
                next <= next_fresh <= STREAM_IDS,
                forall|id: i16| all.contains_key(id) ==> 0 <= id < next_fresh,
                forall|id: i16|
                    waiters@.contains_key(id) <==> all.contains_key(id) && id >= next,
                forall|id: i16| waiters@.contains_key(id) ==> waiters@[id] == all[id],
                forall|i: int|
                    0 <= i < out@.len() ==> all.contains_key((#[trigger] out@[i]).0)
                        && all[out@[i].0]
                        == out@[i].1 && out@[i].0 < next,
                forall|id: i16|
                    all.contains_key(id) && id < next ==> exists|i: int|
                        0 <= i < out@.len() && (#[trigger] out@[i]).0 == id,
                forall|i: int, j: int| 0 <= i < j < out@.len() ==> out@[i].0 < out@[j].0,
            decreases next_fresh - next,
        {
            let id = next as i16;
            let ghost before = out@;
            let ghost waiting = waiters@;
            assert(forall|x: i16| waiting.contains_key(x) <==> all.contains_key(x) && x >= next);
            let removed = waiters.remove(&id);
            assert(waiters@ == waiting.remove(id));
            match removed {
                Some(waiter) => {
                    out.push((id, waiter));
                    proof {
                        assert(out@[before.len() as int].0 == id);
                        assert forall|other: i16|
                            all.contains_key(other) && other < next + 1 implies exists|i: int|
                            0 <= i < out@.len() && (#[trigger] out@[i]).0 == other by {
                            if other == id {
                                assert(out@[before.len() as int].0 == other);
                            } else {
                                let i = choose|i: int|
                                    0 <= i < before.len() && (#[trigger] before[i]).0 == other;
                                assert(out@[i].0 == other);
                            }
                        }
                    }
                },
                None => {},
            }
            next += 1;
        }
        proof {
            assert forall|id: i16| !waiters@.contains_key(id) by {
                if waiters@.contains_key(id) {
                    assert(all.contains_key(id) && id >= next);
                }
            }
            assert(waiters@ =~= Map::<i16, W>::empty());
            assert(self.in_use() =~= Set::<i16>::empty());
        }
        out
    }
}

/// Where the opening of a connection stands.
#[derive(Debug, Clone, Copy, PartialEq, Eq, Structural)]
pub enum HandshakePhase {
    /// Nothing was sent yet.
    Created,
    /// `OPTIONS` was sent, and the answer is awaited.
    AwaitingSupported,
    /// `STARTUP` was sent, and the answer is awaited.
    AwaitingReady,
    /// `USE` was sent, and the answer is awaited.
    AwaitingKeyspace,
    /// The connection is open, or could not be opened.
    Finished,
}

/// What is to be done next to open a connection.
pub enum HandshakeAction {
    /// Send an `OPTIONS` request.
    SendOptions,
    /// Send this `STARTUP` request.
    SendStartup(Startup),
    /// Send this statement as a query: it makes the session's keyspace the
    /// current one of the connection.
    SendUse(String),
    /// The connection is open.
    Done,
    /// The connection could not be opened.
    Fail(QueryError),
    /// Nothing: the handshake is over, or has not begun.
    Idle,
}

/// The opening of a connection: `OPTIONS` is sent, to learn which
/// compression the server offers; `STARTUP` is sent, with the compression
/// that was wanted if the server offers it, and `READY` expected; then, if
/// the session uses a keyspace, `USE` is sent for it.
pub struct Handshake {
    wanted: Option<Compression>,
    agreed: Option<Compression>,
    keyspace: Option<VerifiedKeyspaceName>,
    phase: HandshakePhase,
}

/// The kind of answer that an opening connection got.
pub enum HandshakeAnswer {
    /// `SUPPORTED`, with the options that the server offers.
    Supported(Seq<(Seq<char>, Seq<Seq<char>>)>),
    /// `READY`.
    Ready,
    /// An `ERROR`.
    Error(QueryError),
    /// The `RESULT` of a `USE`.
    KeyspaceSet,
    /// `AUTHENTICATE`.
    Authenticate,
    /// Anything else.
    Other,
}

/// The answer that a response is to an opening connection.
pub open spec fn answer_of(response: Response) -> HandshakeAnswer {
    match response {
        Response::Supported(supported) => HandshakeAnswer::Supported(
            supported.options.deep_view(),
        ),
        Response::Ready => HandshakeAnswer::Ready,
        Response::Error(e) => HandshakeAnswer::Error(QueryError::DBError(e.error, e.reason)),
        Response::Result(QueryResult::SetKeyspace(_)) => HandshakeAnswer::KeyspaceSet,
        Response::Authenticate(_) => HandshakeAnswer::Authenticate,
        _ => HandshakeAnswer::Other,
    }
}

/// The values of the first option of that name from position `from` on,
/// if there is such an option.
pub open spec fn option_values(
    options: Seq<(Seq<char>, Seq<Seq<char>>)>,
    name: Seq<char>,
    from: nat,
) -> Option<Seq<Seq<char>>>
    decreases options.len() - from,
{
    if from >= options.len() {
        None
    } else if options[from as int].0 == name {
        Some(options[from as int].1)
    } else {
        option_values(options, name, from + 1)
    }
}

/// The compression that the two sides agree on: the one that is wanted, if
/// the server answered with its options and names it among the values of
/// `COMPRESSION`; none otherwise.
pub open spec fn agreed_compression(
    wanted: Option<Compression>,
    answer: HandshakeAnswer,
) -> Option<Compression> {
    match (wanted, answer) {
        (Some(compression), HandshakeAnswer::Supported(options)) => match option_values(
            options,
            "COMPRESSION"@,
            0,
        ) {
            Some(values) => if values.contains(compression.name()) {
                Some(compression)
            } else {
                None
            },
            None => None,
        },
        _ => None,
    }
}

/// The statement that makes a keyspace the current one: `USE` and the
/// name, between double quotes if it is case sensitive.
pub open spec fn use_statement_of(keyspace: VerifiedKeyspaceNameView) -> Seq<char> {
    if keyspace.is_case_sensitive {
        "USE \""@ + keyspace.name + "\""@
    } else {
        "USE "@ + keyspace.name
    }
}

/// The error of an opening connection that got a message out of place.
pub open spec fn is_handshake_error(e: QueryError, message: Seq<char>) -> bool {
    e matches QueryError::ProtocolError(m) && m@ == message
}

impl HandshakeAction {
    /// The action is to fail with an error of the protocol that says
    /// `message`.
    pub open spec fn fails_saying(self, message: Seq<char>) -> bool {
        self matches HandshakeAction::Fail(failure) && is_handshake_error(failure, message)
    }

    /// The action is to fail with the error `e`.
    pub open spec fn fails_with(self, e: QueryError) -> bool {
        self matches HandshakeAction::Fail(failure) && failure == e
    }

    /// The action is to send `STARTUP` and ask for the compression
    /// `compression`.
    pub open spec fn starts_with(self, compression: Option<Compression>) -> bool {
        self matches HandshakeAction::SendStartup(startup) && startup.options.deep_view()
            == startup_options(compression)
    }

    /// The action is to send the statement `statement`.
    pub open spec fn sends_use(self, statement: Seq<char>) -> bool {
        self matches HandshakeAction::SendUse(sent) && sent@ == statement
    }
}

/// Tells whether a list of texts holds a text.
fn holds_text(texts: &Vec<String>, text: &str) -> (r: bool)
    ensures
        r == texts.deep_view().contains(text@),
{
    let mut i: usize = 0;
    while i < texts.len()
        invariant
            i <= texts@.len(),
            forall|j: int| 0 <= j < i ==> texts.deep_view()[j] != text@,
        decreases texts@.len() - i,
    {
        if str_equal(texts[i].as_str(), text) {
            assert(texts.deep_view()[i as int] == text@);
            return true;
        }
        i += 1;
    }
    false
}

/// Tells whether the server, by its options, offers a compression.
fn offers(options: &Vec<(String, Vec<String>)>, compression: Compression) -> (r: bool)
    ensures
        r == (agreed_compression(
            Some(compression),
            HandshakeAnswer::Supported(options.deep_view()),
        ) is Some),
{
    let mut i: usize = 0;
    while i < options.len()
        invariant
            i <= options@.len(),
            option_values(options.deep_view(), "COMPRESSION"@, 0) == option_values(
                options.deep_view(),
                "COMPRESSION"@,
                i as nat,
            ),
        decreases options@.len() - i,
    {
        assert(options.deep_view()[i as int] == options@[i as int].deep_view());
        if str_equal(options[i].0.as_str(), "COMPRESSION") {
            return holds_text(&options[i].1, compression.to_str());
        }
        i += 1;
    }
    false
}

impl Handshake {
    /// The opening of a connection that wants the given compression and,
    /// if one is given, uses the given keyspace.
    pub fn new(compression: Option<Compression>, keyspace: Option<VerifiedKeyspaceName>) -> (r:
        Self)
        ensures
            r.phase() is Created,
            r.keyspace() == keyspace,
            r.wanted() == compression,
            r.compression() is None,
    {
        Handshake { wanted: compression, agreed: None, keyspace, phase: HandshakePhase::Created }
    }

    /// Where the opening stands.
    pub closed spec fn phase(&self) -> HandshakePhase {
        self.phase
    }

    /// The keyspace that the connection is to use.
    pub closed spec fn keyspace(&self) -> Option<VerifiedKeyspaceName> {
        self.keyspace
    }

    /// The compression that the session wants.
    pub closed spec fn wanted(&self) -> Option<Compression> {
        self.wanted
    }

    /// The compression that was agreed on: none before the server has told
    /// its options.
    pub closed spec fn compression(&self) -> Option<Compression> {
        self.agreed
    }

    /// The compression that was agreed on. Bodies are compressed from the
    /// answer to `STARTUP` on.
    pub fn get_compression(&self) -> (r: Option<Compression>)
        ensures
            r == self.compression(),
    {
        self.agreed
    }

    /// Begins: `OPTIONS` is to be sent.
    pub fn start(&mut self) -> (r: HandshakeAction)
        ensures
            final(self).keyspace() == old(self).keyspace(),
            final(self).wanted() == old(self).wanted(),
            final(self).compression() == old(self).compression(),
            match r {
                HandshakeAction::SendOptions => old(self).phase() is Created && final(self).phase()
                    is AwaitingSupported,
                HandshakeAction::Idle => !(old(self).phase() is Created) && final(self).phase()
                    == old(self).phase(),
                _ => false,
            },
    {
        match self.phase {
            HandshakePhase::Created => {
                self.phase = HandshakePhase::AwaitingSupported;
                HandshakeAction::SendOptions
            },
            _ => HandshakeAction::Idle,
        }
    }

    /// Takes in the answer to what was sent last. After the answer to
    /// `OPTIONS`, `STARTUP` is sent: it asks for the compression that is
    /// wanted if the server offers it, and for none otherwise, also where
    /// the answer is no list of options. After `READY`, the keyspace is set
    /// if there is one, else the connection is open. After `STARTUP`, an
    /// error of the server, a request for authentication and any message out
    /// of place end the opening with an error.
    pub fn response_received(&mut self, response: Response) -> (r: HandshakeAction)
        ensures
            final(self).keyspace() == old(self).keyspace(),
            final(self).wanted() == old(self).wanted(),
            match (old(self).phase(), answer_of(response)) {
                (HandshakePhase::AwaitingSupported, answer) => final(self).phase() is AwaitingReady
                    && final(self).compression() == agreed_compression(old(self).wanted(), answer)
                    && r.starts_with(final(self).compression()),
                (HandshakePhase::AwaitingReady, HandshakeAnswer::Ready) => match old(self).keyspace(
                    ) {
                    Some(keyspace) => final(self).phase() is AwaitingKeyspace && r.sends_use(
                        use_statement_of(keyspace@),
                    ),
                    None => final(self).phase() is Finished && r is Done,
                },
                (HandshakePhase::AwaitingKeyspace, HandshakeAnswer::KeyspaceSet) => final(
                    self).phase() is Finished && r is Done,
                (HandshakePhase::AwaitingReady, HandshakeAnswer::Error(e)) => final(self).phase()
                    is Finished && r.fails_with(e),
                (HandshakePhase::AwaitingKeyspace, HandshakeAnswer::Error(e)) => final(
                    self).phase() is Finished && r.fails_with(e),
                (HandshakePhase::AwaitingReady, HandshakeAnswer::Authenticate) => final(
                    self).phase() is Finished && r.fails_saying(
                    "Authentication is not supported"@,
                ),
                (HandshakePhase::AwaitingReady, _) => final(self).phase() is Finished
                    && r.fails_saying("Unexpected response to STARTUP message"@),
                (HandshakePhase::AwaitingKeyspace, _) => final(self).phase() is Finished
                    && r.fails_saying("USE <keyspace_name> returned unexpected response"@),
                _ => final(self).phase() == old(self).phase() && r is Idle,
            },
            !(old(self).phase() is AwaitingSupported) ==> final(self).compression() == old(
                self,
            ).compression(),
    {
        match self.phase {
            HandshakePhase::AwaitingSupported => {
                let agreed = match (self.wanted, &response) {
                    (Some(compression), Response::Supported(supported)) => {
                        if offers(&supported.options, compression) {
                            Some(compression)
                        } else {
                            None
                        }
                    },
                    _ => None,
                };
                self.agreed = agreed;
                self.phase = HandshakePhase::AwaitingReady;
                HandshakeAction::SendStartup(Startup::new(agreed))
            },
            HandshakePhase::AwaitingReady => match response {
                Response::Ready => match &self.keyspace {
                    Some(keyspace) => {
                        self.phase = HandshakePhase::AwaitingKeyspace;
                        HandshakeAction::SendUse(keyspace.use_statement())
                    },
                    None => {
                        self.phase = HandshakePhase::Finished;
                        HandshakeAction::Done
                    },
                },
                Response::Error(e) => {
                    self.phase = HandshakePhase::Finished;
                    HandshakeAction::Fail(e.into_query_error())
                },
                Response::Authenticate(_) => {
                    self.phase = HandshakePhase::Finished;
                    HandshakeAction::Fail(
                        QueryError::ProtocolError("Authentication is not supported"),
                    )
                },
                _ => {
                    self.phase = HandshakePhase::Finished;
                    HandshakeAction::Fail(
                        QueryError::ProtocolError("Unexpected response to STARTUP message"),
                    )
                },
            },
            HandshakePhase::AwaitingKeyspace => match response {
                Response::Result(QueryResult::SetKeyspace(_)) => {
                    self.phase = HandshakePhase::Finished;
                    HandshakeAction::Done
                },
                Response::Error(e) => {
                    self.phase = HandshakePhase::Finished;
                    HandshakeAction::Fail(e.into_query_error())
                },
                _ => {
                    self.phase = HandshakePhase::Finished;
                    HandshakeAction::Fail(
                        QueryError::ProtocolError(
                            "USE <keyspace_name> returned unexpected response",
                        ),
                    )
                },
            },
            _ => HandshakeAction::Idle,
        }
    }
}

} // verus!
