//! Smart Ink: hand selected strokes to a refiner and take back replacement strokes.
//!
//! ```text
//!   strokes ──► Refiner ──► SubprocessRefiner   JSON lines over stdin/stdout
//!                      └──► PassthroughRefiner  identity, for tests
//! ```
//!
//! The library keeps the protocol envelope and the refiner bookkeeping: request ids, the
//! version and id checks on each response, and when the refiner process must be dropped.
//! The strokes themselves are carried through as they are.
use vstd::prelude::*;
use vstd::string::StrSliceExecFns;

verus! {

/// Bump on incompatible changes.
pub const PROTOCOL_VERSION: u32 = 0;

/// Why a refinement failed.
#[derive(Clone, Debug)]
pub enum RefineError {
    /// The refiner command line holds no program.
    EmptyCommand,
    /// The refiner process could not be started.
    Spawn(String),
    /// Writing the request or reading the response failed, timed out, or the response did not parse.
    Transport(String),
    /// The response is of another protocol version.
    VersionMismatch { got: u32 },
    /// The response answers another request.
    IdMismatch { expected: u64, got: u64 },
    /// The refiner reported an error of its own.
    Reported(String),
}

/// A refinement request: the strokes in chronological order.
#[derive(Clone, Debug)]
pub struct RefineRequest<S> {
    pub version: u32,
    pub id: u64,
    /// How much to regularize, from 0.0 (untouched) to 1.0 (maximally), carried as the bits
    /// of an IEEE double: the library hands it on as it came.
    pub strength: u64,
    pub strokes: Vec<S>,
}

impl<S> RefineRequest<S> {
    /// A request of the current protocol version.
    pub fn new(id: u64, strength: u64, strokes: Vec<S>) -> (r: RefineRequest<S>)
        ensures
            r.version == PROTOCOL_VERSION,
            r.id == id,
            r.strength == strength,
            r.strokes == strokes,
    {
        RefineRequest { version: PROTOCOL_VERSION, id, strength, strokes }
    }
}

/// The answer of a refiner: replacement strokes, or an error message.
#[derive(Clone, Debug)]
pub struct RefineResponse<S> {
    pub version: u32,
    pub id: u64,
    pub strokes: Vec<S>,
    pub error: Option<String>,
}

/// Strokes saved for dataset collection, in the request stroke format.
#[derive(Clone, Debug)]
pub struct InkDump<S> {
    pub version: u32,
    /// Seconds since the Unix epoch, when the dump was taken.
    pub created: u64,
    pub strokes: Vec<S>,
}

impl<S> InkDump<S> {
    /// A dump of the current protocol version, taken at `created`.
    pub fn new(strokes: Vec<S>, created: u64) -> (d: InkDump<S>)
        ensures
            d.version == PROTOCOL_VERSION,
            d.created == created,
            d.strokes == strokes,
    {
        InkDump { version: PROTOCOL_VERSION, created, strokes }
    }
}

/// Something that turns a group of strokes into a cleaner group of strokes.
///
/// Input and output counts may differ (merging or splitting strokes is allowed).
pub trait Refiner<S> {
    fn refine(&mut self, strength: u64, strokes: Vec<S>) -> Result<Vec<S>, RefineError>;
}

/// Identity refiner. Exercises the replace and undo path without an external process.
#[derive(Clone, Copy, Debug, Default)]
pub struct PassthroughRefiner;

impl<S> Refiner<S> for PassthroughRefiner {
    fn refine(&mut self, strength: u64, strokes: Vec<S>) -> (r: Result<Vec<S>, RefineError>)
        ensures
            r == Ok::<Vec<S>, RefineError>(strokes),
    {
        Ok(strokes)
    }
}

/// The reply of an exchange with the version and id checked against the request.
pub open spec fn checked_reply<S>(request_id: u64, reply: Result<RefineResponse<S>, RefineError>) -> Result<
    RefineResponse<S>,
    RefineError,
> {
    match reply {
        Err(e) => Err(e),
        Ok(response) => if response.version != PROTOCOL_VERSION {
            Err(RefineError::VersionMismatch { got: response.version })
        } else if response.id != request_id {
            Err(RefineError::IdMismatch { expected: request_id, got: response.id })
        } else {
            Ok(response)
        },
    }
}

/// The strokes a checked response hands back, or the error it reports.
pub open spec fn response_outcome<S>(response: RefineResponse<S>) -> Result<Vec<S>, RefineError> {
    match response.error {
        Some(message) => Err(RefineError::Reported(message)),
        None => Ok(response.strokes),
    }
}

/// Unicode `White_Space`, the characters a command line is split at.
pub open spec fn is_whitespace(c: char) -> bool {
    let v = c as u32;
    ||| v == 0x20
    ||| 0x09 <= v <= 0x0d
    ||| v == 0x85
    ||| v == 0xa0
    ||| v == 0x1680
    ||| 0x2000 <= v <= 0x200a
    ||| v == 0x2028
    ||| v == 0x2029
    ||| v == 0x202f
    ||| v == 0x205f
    ||| v == 0x3000
}

/// Whether `c` is whitespace in the sense of [`is_whitespace`].
pub fn char_is_whitespace(c: char) -> (b: bool)
    ensures
        b == is_whitespace(c),
{
    let v: u32 = c as u32;
    v == 0x20 || (0x09 <= v && v <= 0x0d) || v == 0x85 || v == 0xa0 || v == 0x1680 || (0x2000 <= v
        && v <= 0x200a) || v == 0x2028 || v == 0x2029 || v == 0x202f || v == 0x205f || v == 0x3000
}

/// Scanning `s` from the left: the words finished so far, and the word being read.
pub open spec fn split_state(s: Seq<char>) -> (Seq<Seq<char>>, Seq<char>)
    decreases s.len(),
{
    if s.len() == 0 {
        (Seq::empty(), Seq::empty())
    } else {
        let (words, current) = split_state(s.drop_last());
        let c = s.last();
        if is_whitespace(c) {
            if current.len() > 0 {
                (words.push(current), Seq::empty())
            } else {
                (words, current)
            }
        } else {
            (words, current.push(c))
        }
    }
}

/// The maximal runs of non-whitespace characters of `s`, in order.
pub open spec fn split_words(s: Seq<char>) -> Seq<Seq<char>> {
    let (words, current) = split_state(s);
    if current.len() > 0 {
        words.push(current)
    } else {
        words
    }
}

/// The words of a split are whole: none is empty and none holds whitespace.
pub open spec fn words_are_whole(words: Seq<Seq<char>>) -> bool {
    forall|i: int|
        0 <= i < words.len() ==> #[trigger] words[i].len() > 0 && forall|j: int|
            0 <= j < words[i].len() ==> !is_whitespace(#[trigger] words[i][j])
}

proof fn lemma_split_state_whole(s: Seq<char>)
    ensures
        words_are_whole(split_state(s).0),
        forall|j: int|
            0 <= j < split_state(s).1.len() ==> !is_whitespace(#[trigger] split_state(s).1[j]),
    decreases s.len(),
{
    if s.len() > 0 {
        lemma_split_state_whole(s.drop_last());
        let (words, current) = split_state(s.drop_last());
        let c = s.last();
        if !is_whitespace(c) {
            assert forall|j: int| 0 <= j < current.push(c).len() implies !is_whitespace(
                #[trigger] current.push(c)[j],
            ) by {
                if j < current.len() {
                    assert(current.push(c)[j] == current[j]);
                }
            }
        } else if current.len() > 0 {
            let pushed = words.push(current);
            assert forall|i: int| 0 <= i < pushed.len() implies #[trigger] pushed[i].len() > 0
                && forall|j: int| 0 <= j < pushed[i].len() ==> !is_whitespace(#[trigger] pushed[i][j]) by {
                if i < words.len() {
                    assert(pushed[i] == words[i]);
                }
            }
        }
    }
}

/// A command line splits into whole words: none is empty and none holds whitespace.
pub proof fn law_command_words_are_whole(s: Seq<char>)
    ensures
        words_are_whole(split_words(s)),
{
    lemma_split_state_whole(s);
    let (words, current) = split_state(s);
    if current.len() > 0 {
        let pushed = words.push(current);
        assert forall|i: int| 0 <= i < pushed.len() implies #[trigger] pushed[i].len() > 0
            && forall|j: int| 0 <= j < pushed[i].len() ==> !is_whitespace(#[trigger] pushed[i][j]) by {
            if i < words.len() {
                assert(pushed[i] == words[i]);
            }
        }
    }
}

/// The characters a command line is split at are exactly the 25 code points of Unicode
/// `White_Space`; every other character, letters of any script included, belongs to a word.
pub proof fn law_whitespace_is_unicode_white_space(c: char)
    ensures
        is_whitespace(c) <==> {
            let v = c as u32;
            ||| v == 0x09 || v == 0x0a || v == 0x0b || v == 0x0c || v == 0x0d
            ||| v == 0x20 || v == 0x85 || v == 0xa0 || v == 0x1680
            ||| v == 0x2000 || v == 0x2001 || v == 0x2002 || v == 0x2003 || v == 0x2004
            ||| v == 0x2005 || v == 0x2006 || v == 0x2007 || v == 0x2008 || v == 0x2009
            ||| v == 0x200a
            ||| v == 0x2028 || v == 0x2029 || v == 0x202f || v == 0x205f || v == 0x3000
        },
{
}

/// Whether a character stays in a word: it is not whitespace.
pub open spec fn non_whitespace() -> spec_fn(char) -> bool {
    |c: char| !is_whitespace(c)
}

proof fn lemma_split_state_keeps_words(s: Seq<char>)
    ensures
        split_state(s).0.flatten() + split_state(s).1 == s.filter(non_whitespace()),
    decreases s.len(),
{
    broadcast use Seq::lemma_filter_push, Seq::lemma_flatten_push;

    if s.len() == 0 {
        reveal(Seq::filter);
        assert(split_state(s).0 =~= Seq::<Seq<char>>::empty());
        assert(Seq::<Seq<char>>::empty().flatten() =~= Seq::<char>::empty());
        assert(s.filter(non_whitespace()) =~= Seq::<char>::empty());
    } else {
        lemma_split_state_keeps_words(s.drop_last());
        let (words, current) = split_state(s.drop_last());
        let c = s.last();
        assert(s =~= s.drop_last().push(c));
        assert(s.drop_last().push(c).filter(non_whitespace()) == if non_whitespace()(c) {
            s.drop_last().filter(non_whitespace()).push(c)
        } else {
            s.drop_last().filter(non_whitespace())
        });
        if is_whitespace(c) {
            if current.len() > 0 {
                assert(words.push(current).flatten() =~= words.flatten() + current);
                assert(words.push(current).flatten() + Seq::<char>::empty() =~= words.flatten()
                    + current);
            }
        } else {
            assert(words.flatten() + current.push(c) =~= (words.flatten() + current).push(c));
        }
    }
}

/// Splitting keeps every character but whitespace: the words of a command line, joined,
/// are the line with its whitespace taken out.
pub proof fn law_command_words_keep_every_other_character(s: Seq<char>)
    ensures
        split_words(s).flatten() == s.filter(non_whitespace()),
{
    broadcast use Seq::lemma_flatten_push;

    lemma_split_state_keeps_words(s);
    let (words, current) = split_state(s);
    if current.len() > 0 {
        assert(words.push(current).flatten() =~= words.flatten() + current);
    } else {
        assert(words.flatten() + current =~= words.flatten());
    }
}

proof fn lemma_split_state_after_whitespace(a: Seq<char>, c: char, b: Seq<char>)
    requires
        is_whitespace(c),
    ensures
        split_state(a + seq![c] + b) == (split_words(a) + split_state(b).0, split_state(b).1),
    decreases b.len(),
{
    if b.len() == 0 {
        assert(a + seq![c] + b =~= a.push(c));
        assert((a.push(c)).drop_last() =~= a);
        assert(split_state(b).0 =~= Seq::<Seq<char>>::empty());
        assert(split_words(a) + Seq::<Seq<char>>::empty() =~= split_words(a));
    } else {
        let b0 = b.drop_last();
        let d = b.last();
        lemma_split_state_after_whitespace(a, c, b0);
        assert((a + seq![c] + b).drop_last() =~= a + seq![c] + b0);
        assert((a + seq![c] + b).last() == d);
        let (w0, cur0) = split_state(b0);
        let wa = split_words(a);
        if is_whitespace(d) && cur0.len() > 0 {
            assert((wa + w0).push(cur0) =~= wa + w0.push(cur0));
        }
    }
}

/// A whitespace character ends a word: the words of `a`, a whitespace character and `b` are
/// the words of `a` followed by the words of `b`.
pub proof fn law_whitespace_separates_words(a: Seq<char>, c: char, b: Seq<char>)
    requires
        is_whitespace(c),
    ensures
        split_words(a + seq![c] + b) == split_words(a) + split_words(b),
{
    lemma_split_state_after_whitespace(a, c, b);
    let (w, cur) = split_state(b);
    if cur.len() > 0 {
        assert((split_words(a) + w).push(cur) =~= split_words(a) + w.push(cur));
    }
}

/// A run of characters without whitespace is one word, whole.
pub proof fn law_word_without_whitespace_stays_whole(s: Seq<char>)
    requires
        s.len() > 0,
        forall|i: int| 0 <= i < s.len() ==> !is_whitespace(#[trigger] s[i]),
    ensures
        split_words(s) == seq![s],
{
    lemma_split_state_of_word(s);
}

proof fn lemma_split_state_of_word(s: Seq<char>)
    requires
        forall|i: int| 0 <= i < s.len() ==> !is_whitespace(#[trigger] s[i]),
    ensures
        split_state(s) == (Seq::<Seq<char>>::empty(), s),
    decreases s.len(),
{
    if s.len() > 0 {
        lemma_split_state_of_word(s.drop_last());
        assert(!is_whitespace(s[s.len() - 1]));
        assert(s.drop_last().push(s.last()) =~= s);
    } else {
        assert(s =~= Seq::<char>::empty());
    }
}

/// The words of `s`: its maximal runs of non-whitespace characters, in order.
pub fn split_whitespace(s: &str) -> (words: Vec<String>)
    ensures
        words@.map_values(|w: String| w@) == split_words(s@),
{
    let n = s.unicode_len();
    let mut words: Vec<String> = Vec::new();
    let mut start: usize = 0;
    let mut in_word = false;
    let mut i: usize = 0;
    while i < n
        invariant
            n == s@.len(),
            i <= n,
            words@.map_values(|w: String| w@) == split_state(s@.take(i as int)).0,
            in_word ==> start < i && split_state(s@.take(i as int)).1 == s@.subrange(
                start as int,
                i as int,
            ),
            !in_word ==> split_state(s@.take(i as int)).1 == Seq::<char>::empty(),
        decreases n - i,
    {
        let c = s.get_char(i);
        assert(s@.take(i + 1).drop_last() == s@.take(i as int));
        assert(s@.take(i + 1).last() == c);
        if char_is_whitespace(c) {
            if in_word {
                let word = s.substring_char(start, i).to_owned();
                let ghost old_words = words@;
                words.push(word);
                assert(words@.map_values(|w: String| w@) == old_words.map_values(|w: String| w@).push(
                    word@,
                ));
                in_word = false;
            }
        } else {
            if !in_word {
                start = i;
                in_word = true;
                assert(s@.subrange(start as int, i + 1) == Seq::<char>::empty().push(c));
            } else {
                assert(s@.subrange(start as int, i + 1) == s@.subrange(start as int, i as int).push(c));
            }
        }
        i = i + 1;
    }
    assert(s@.take(n as int) == s@);
    if in_word {
        let word = s.substring_char(start, n).to_owned();
        let ghost old_words = words@;
        words.push(word);
        assert(words@.map_values(|w: String| w@) == old_words.map_values(|w: String| w@).push(word@));
    }
    words
}

/// The bookkeeping of a refiner running as a long-lived child process.
///
/// Whoever runs the process asks for request ids, reports when a process was started,
/// and hands each reply to [`SubprocessRefiner::finish_exchange`], which checks it and drops
/// the process after any failed exchange, so the next call starts a fresh one.
#[derive(Debug)]
pub struct SubprocessRefiner {
    command: Vec<String>,
    session_open: bool,
    next_id: u64,
}

/// The state of a subprocess refiner, as the contracts see it.
pub struct SubprocessRefinerView {
    /// Program followed by its arguments.
    pub command: Seq<Seq<char>>,
    /// A child process is running.
    pub session_open: bool,
    /// The id of the next request.
    pub next_id: u64,
}

impl SubprocessRefinerView {
    /// The request a refinement sends: the next id, the strength and the strokes.
    pub open spec fn round_request<S>(self, strength: u64, strokes: Vec<S>) -> RefineRequest<S> {
        RefineRequest { version: PROTOCOL_VERSION, id: self.next_id, strength, strokes }
    }

    /// The state once a request id is handed out.
    pub open spec fn after_request(self) -> SubprocessRefinerView {
        SubprocessRefinerView { next_id: (self.next_id + 1) as u64, ..self }
    }

    /// The state and the result once the exchange for request `request_id` gave `reply`:
    /// a failed exchange, or a response that does not answer the request, drops the child.
    pub open spec fn after_exchange<S>(
        self,
        request_id: u64,
        reply: Result<RefineResponse<S>, RefineError>,
    ) -> (SubprocessRefinerView, Result<Vec<S>, RefineError>) {
        match checked_reply(request_id, reply) {
            Err(e) => (SubprocessRefinerView { session_open: false, ..self }, Err(e)),
            Ok(response) => (self, response_outcome(response)),
        }
    }

    /// One refinement ending in `reply`: the request takes the next id; a child is started
    /// unless one runs, and any reply but a failed start came from a running child.
    pub open spec fn after_round<S>(self, reply: Result<RefineResponse<S>, RefineError>) -> (
        SubprocessRefinerView,
        Result<Vec<S>, RefineError>,
    ) {
        let sent = self.after_request();
        let connected = match reply {
            Err(RefineError::Spawn(_)) => sent,
            _ => SubprocessRefinerView { session_open: true, ..sent },
        };
        connected.after_exchange(self.next_id, reply)
    }

    /// The state after one refinement for each of `replies`, in order.
    pub open spec fn after_rounds<S>(self, replies: Seq<Result<RefineResponse<S>, RefineError>>) -> SubprocessRefinerView
        decreases replies.len(),
    {
        if replies.len() == 0 {
            self
        } else {
            self.after_rounds(replies.drop_last()).after_round(replies.last()).0
        }
    }
}

impl View for SubprocessRefiner {
    type V = SubprocessRefinerView;

    closed spec fn view(&self) -> SubprocessRefinerView {
        SubprocessRefinerView {
            command: self.command@.map_values(|w: String| w@),
            session_open: self.session_open,
            next_id: self.next_id,
        }
    }
}

impl SubprocessRefiner {
    /// A refiner for `command_line`, split at whitespace; quoting is not supported.
    /// An empty command line is rejected.
    pub fn new(command_line: &str) -> (r: Result<SubprocessRefiner, RefineError>)
        ensures
            split_words(command_line@).len() == 0 <==> r is Err,
            r matches Err(e) ==> e is EmptyCommand,
            r matches Ok(refiner) ==> refiner@ == (SubprocessRefinerView {
                command: split_words(command_line@),
                session_open: false,
                next_id: 0,
            }),
    {
        let command = split_whitespace(command_line);
        if command.len() == 0 {
            return Err(RefineError::EmptyCommand);
        }
        Ok(SubprocessRefiner { command, session_open: false, next_id: 0 })
    }

    /// Program followed by its arguments.
    pub fn command(&self) -> (c: &Vec<String>)
        ensures
            c@.map_values(|w: String| w@) == self@.command,
    {
        &self.command
    }

    /// The id the next request will get.
    pub fn next_id(&self) -> (id: u64)
        ensures
            id == self@.next_id,
    {
        self.next_id
    }

    /// Whether a child process is running.
    pub fn session_open(&self) -> (b: bool)
        ensures
            b == self@.session_open,
    {
        self.session_open
    }

    /// Note that a child process was started.
    pub fn session_started(&mut self)
        ensures
            final(self)@ == (SubprocessRefinerView { session_open: true, ..old(self)@ }),
    {
        self.session_open = true;
    }

    /// The id of a new request. Ids count up from zero, one per request.
    pub fn next_request_id(&mut self) -> (id: u64)
        requires
            old(self)@.next_id < u64::MAX,
        ensures
            id == old(self)@.next_id,
            final(self)@ == (SubprocessRefinerView { next_id: (id + 1) as u64, ..old(self)@ }),
    {
        let id = self.next_id;
        self.next_id = self.next_id + 1;
        id
    }

    /// The request for a refinement of `strokes` at `strength`, under the next request id.
    pub fn begin_request<S>(&mut self, strength: u64, strokes: Vec<S>) -> (r: RefineRequest<S>)
        requires
            old(self)@.next_id < u64::MAX,
        ensures
            r == old(self)@.round_request(strength, strokes),
            final(self)@ == old(self)@.after_request(),
    {
        let id = self.next_request_id();
        RefineRequest::new(id, strength, strokes)
    }

    /// Take the reply of the exchange for request `request_id`.
    ///
    /// A failed exchange, a response of another protocol version or one answering another
    /// request is an error and drops the child process. A well-formed response hands back its
    /// strokes, or the error the refiner reported; the process keeps running.
    pub fn finish_exchange<S>(
        &mut self,
        request_id: u64,
        reply: Result<RefineResponse<S>, RefineError>,
    ) -> (r: Result<Vec<S>, RefineError>)
        ensures
            (final(self)@, r) == old(self)@.after_exchange(request_id, reply),
    {
        let checked = match reply {
            Err(e) => Err(e),
            Ok(response) => {
                if response.version != PROTOCOL_VERSION {
                    Err(RefineError::VersionMismatch { got: response.version })
                } else if response.id != request_id {
                    Err(RefineError::IdMismatch { expected: request_id, got: response.id })
                } else {
                    Ok(response)
                }
            },
        };
        match checked {
            Err(e) => {
                self.session_open = false;
                Err(e)
            },
            Ok(response) => match response.error {
                Some(message) => Err(RefineError::Reported(message)),
                None => Ok(response.strokes),
            },
        }
    }
}

/// One refinement: the request carries the next id, and the id moves on by one whatever the
/// reply. A response of the current version answering that id hands back its strokes, or the
/// error the refiner reported while the child keeps running; any other reply is an error and
/// drops the child, so the next refinement starts a fresh one.
pub proof fn law_refine_round<S>(
    v: SubprocessRefinerView,
    strength: u64,
    strokes: Vec<S>,
    reply: Result<RefineResponse<S>, RefineError>,
)
    requires
        v.next_id < u64::MAX,
    ensures
        v.round_request(strength, strokes).id == v.next_id,
        v.round_request(strength, strokes).strokes == strokes,
        v.after_round(reply).0.next_id == v.next_id + 1,
        v.after_round(reply).0.command == v.command,
        ({
            let (after, result) = v.after_round(reply);
            match reply {
                Ok(response) => if response.version == PROTOCOL_VERSION && response.id == v.next_id {
                    &&& after.session_open
                    &&& (match response.error {
                        None => result == Ok::<Vec<S>, RefineError>(response.strokes),
                        Some(message) => result == Err::<Vec<S>, RefineError>(
                            RefineError::Reported(message),
                        ),
                    })
                } else {
                    &&& !after.session_open
                    &&& result is Err
                },
                Err(e) => !after.session_open && result == Err::<Vec<S>, RefineError>(e),
            }
        }),
{
}

/// Request ids count up by one per refinement, whatever the replies: from a fresh refiner the
/// request of the `k`-th refinement, counting from zero, has id `k`.
pub proof fn law_request_ids_count_up<S>(
    v: SubprocessRefinerView,
    replies: Seq<Result<RefineResponse<S>, RefineError>>,
)
    requires
        v.next_id + replies.len() <= u64::MAX,
    ensures
        v.after_rounds(replies).next_id == v.next_id + replies.len(),
        v.after_rounds(replies).command == v.command,
    decreases replies.len(),
{
    if replies.len() > 0 {
        law_request_ids_count_up(v, replies.drop_last());
    }
}

} // verus!
