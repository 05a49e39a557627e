//! The pipe bootstrap: how the parent tells the child which pipes to use.
//!
//! The parent appends a start word and the raw numbers of the pipe handles
//! to the child's argument list. The child finds the start word, reads the
//! handles behind it, and keeps the arguments before it for its own use.

use crate::chan::{RxView, TxView, ViaductRx, ViaductTx};
use crate::error::ViaductError;
use crate::handles::{decimal, lemma_parse_rendered_handle, parse_handle};
use crate::handles::{read_handle, render_handle};
use crate::handshake::{establish, greeting, greeting_wire, verdict};
use crate::serde::{ViaductDeserialize, ViaductSerialize};
use crate::wire::{word_size, Endian};
use core::marker::PhantomData;
use vstd::prelude::*;
use vstd::string::*;

verus! {

/// The start word: the handles stand behind it.
pub open spec fn sentinel() -> Seq<char> {
    "PIPER_START"@
}

/// The raw numbers of the two ends of the reaper's probe pipe.
#[derive(Clone, Copy, Debug, PartialEq, Eq, Structural)]
pub struct ReaperHandles {
    /// The end that the parent keeps writing to.
    pub writer: u64,
    /// The end that the child keeps reading from.
    pub reader: u64,
}

/// The raw numbers of the pipe handles that the child takes over.
#[derive(Clone, Copy, Debug, PartialEq, Eq, Structural)]
pub struct PipeHandles {
    /// The pipe that the child writes and the parent reads.
    pub parent_writer: u64,
    /// The pipe that the parent writes and the child reads.
    pub child_reader: u64,
    /// The probe pipe of the reaper, where there is one.
    pub reaper: Option<ReaperHandles>,
}

impl PipeHandles {
    /// Whether every handle is a number that the child can read back: none
    /// is zero.
    pub open spec fn spec_valid(self) -> bool {
        &&& self.parent_writer != 0
        &&& self.child_reader != 0
        &&& match self.reaper {
            Some(ReaperHandles { writer, reader }) => writer != 0 && reader != 0,
            None => true,
        }
    }

    /// The words that stand for the handles.
    pub open spec fn words(self) -> Seq<Seq<char>> {
        let pipes = seq![decimal(self.parent_writer as nat), decimal(self.child_reader as nat)];
        match self.reaper {
            Some(ReaperHandles { writer, reader }) => pipes + seq![
                decimal(writer as nat),
                decimal(reader as nat),
            ],
            None => pipes,
        }
    }

    /// Whether every handle is a number that the child can read back.
    #[verifier::when_used_as_spec(spec_valid)]
    pub fn valid(self) -> (valid: bool)
        ensures
            valid == self.spec_valid(),
    {
        self.parent_writer != 0 && self.child_reader != 0 && match self.reaper {
            Some(ReaperHandles { writer, reader }) => writer != 0 && reader != 0,
            None => true,
        }
    }
}

/// The words of an argument list, each as its characters.
pub open spec fn words_view(args: Seq<String>) -> Seq<Seq<char>> {
    Seq::new(args.len(), |i: int| args[i]@)
}

/// The place of the first start word at or behind `from`; the length of the
/// list where there is none.
pub open spec fn first_sentinel(args: Seq<Seq<char>>, from: int) -> int
    decreases args.len() - from,
{
    if from < 0 || from >= args.len() {
        args.len() as int
    } else if args[from] == sentinel() {
        from
    } else {
        first_sentinel(args, from + 1)
    }
}

/// The handles that the words behind the start word stand for: the two
/// pipes of the channel, and behind them either nothing or the two ends of
/// the reaper's probe pipe. Words behind those are taken and not looked at.
pub open spec fn parse_handles(words: Seq<Seq<char>>) -> Option<PipeHandles> {
    if words.len() < 2 {
        None
    } else {
        match (parse_handle(words[0]), parse_handle(words[1])) {
            (Some(parent_writer), Some(child_reader)) => if words.len() == 2 {
                Some(PipeHandles { parent_writer, child_reader, reaper: None })
            } else if words.len() < 4 {
                None
            } else {
                match (parse_handle(words[2]), parse_handle(words[3])) {
                    (Some(writer), Some(reader)) => Some(
                        PipeHandles {
                            parent_writer,
                            child_reader,
                            reaper: Some(ReaperHandles { writer, reader }),
                        },
                    ),
                    _ => None,
                }
            },
            _ => None,
        }
    }
}

/// What the child makes of its argument list: the number of arguments that
/// are its own, which are those before the start word, and the handles; or
/// the fault.
pub open spec fn bootstrap(args: Seq<Seq<char>>) -> Result<(int, PipeHandles), ViaductError> {
    let at = first_sentinel(args, 0);
    if at >= args.len() {
        Err(ViaductError::HandlesNotFound)
    } else {
        match parse_handles(args.skip(at + 1)) {
            Some(handles) => Ok((at, handles)),
            None => Err(ViaductError::HandlesMalformed),
        }
    }
}

/// The argument list that the parent hands to the child: the arguments of
/// the user, the start word, and the handles.
pub open spec fn child_args(user: Seq<Seq<char>>, handles: PipeHandles) -> Seq<Seq<char>> {
    user + seq![sentinel()] + handles.words()
}

/// Whether a word is the start word.
pub fn is_sentinel(word: &String) -> (is: bool)
    ensures
        is == (word@ == sentinel()),
{
    let sentinel = String::from_str("PIPER_START");
    *word == sentinel
}

/// Finds the start word and reads the handles behind it.
pub fn locate(args: &Vec<String>) -> (out: Result<(usize, PipeHandles), ViaductError>)
    ensures
        match bootstrap(words_view(args@)) {
            Ok((at, handles)) => {
                &&& out matches Ok(found)
                &&& found.0 == at
                &&& found.0 < args@.len()
                &&& found.1 == handles
            },
            Err(error) => out matches Err(fault) && fault == error,
        },
{
    let ghost words = words_view(args@);
    let mut at: usize = 0;
    while at < args.len() && !is_sentinel(&args[at])
        invariant
            at <= args@.len(),
            words == words_view(args@),
            first_sentinel(words, 0) == first_sentinel(words, at as int),
        decreases args@.len() - at,
    {
        at = at + 1;
    }
    if at >= args.len() {
        return Err(ViaductError::HandlesNotFound);
    }
    assert(first_sentinel(words, 0) == at);
    let ghost behind = words.skip(at + 1);
    let count: usize = args.len() - at - 1;
    assert(behind.len() == count);
    if count < 2 {
        return Err(ViaductError::HandlesMalformed);
    }
    assert(behind[0] == args@[at + 1]@ && behind[1] == args@[at + 2]@);
    let parent_writer = match read_handle(args[at + 1].as_str()) {
        Some(handle) => handle,
        None => {
            return Err(ViaductError::HandlesMalformed);
        },
    };
    let child_reader = match read_handle(args[at + 2].as_str()) {
        Some(handle) => handle,
        None => {
            return Err(ViaductError::HandlesMalformed);
        },
    };
    if count == 2 {
        return Ok((at, PipeHandles { parent_writer, child_reader, reaper: None }));
    }
    if count < 4 {
        return Err(ViaductError::HandlesMalformed);
    }
    assert(behind[2] == args@[at + 3]@ && behind[3] == args@[at + 4]@);
    let writer = match read_handle(args[at + 3].as_str()) {
        Some(handle) => handle,
        None => {
            return Err(ViaductError::HandlesMalformed);
        },
    };
    let reader = match read_handle(args[at + 4].as_str()) {
        Some(handle) => handle,
        None => {
            return Err(ViaductError::HandlesMalformed);
        },
    };
    Ok((at, PipeHandles {
                            parent_writer,
                            child_reader,
                            reaper: Some(ReaperHandles { writer, reader }),
                        }))
}

/// A side that knows its pipes and has yet to shake hands with its peer.
#[derive(Debug)]
pub struct Handshake<RpcTx, RequestTx, RpcRx, RequestRx, Reaper> where
    RpcTx: ViaductSerialize,
    RequestTx: ViaductSerialize,
    RpcRx: ViaductDeserialize,
    RequestRx: ViaductDeserialize,
 {
    /// The pipes of the channel.
    pub handles: PipeHandles,
    /// What to call when the peer dies, where a reaper was asked for.
    pub with_reaper: Option<Reaper>,
    /// The byte order of this side.
    pub endian: Endian,
    /// The size in bytes of the native word of this side.
    pub word_size: u128,
    /// The message types of the channel that this side will serve.
    pub types: PhantomData<(RpcTx, RequestTx, RpcRx, RequestRx)>,
}

impl<RpcTx, RequestTx, RpcRx, RequestRx, Reaper> Handshake<
    RpcTx,
    RequestTx,
    RpcRx,
    RequestRx,
    Reaper,
> where
    RpcTx: ViaductSerialize,
    RequestTx: ViaductSerialize,
    RpcRx: ViaductDeserialize,
    RequestRx: ViaductDeserialize,
 {
    /// A side with the given pipes, byte order and word size.
    pub fn new(
        handles: PipeHandles,
        with_reaper: Option<Reaper>,
        endian: Endian,
        word_size: u128,
    ) -> (handshake: Self)
        ensures
            handshake.handles == handles,
            handshake.with_reaper == with_reaper,
            handshake.endian == endian,
            handshake.word_size == word_size,
    {
        Handshake { handles, with_reaper, endian, word_size, types: PhantomData }
    }

    /// The bytes that this side writes to its peer before anything else.
    pub fn greeting(&self) -> (out: Vec<u8>)
        ensures
            out@ == greeting_wire(self.endian, self.word_size),
    {
        greeting(self.endian, self.word_size)
    }

    /// Takes the bytes that the peer opened with. Where they are the
    /// handshake of a peer with the same byte order and word size, the side
    /// enters service: it gets the two lanes of the channel, and the reaper's
    /// callback back. Otherwise it gets the fault and no lanes.
    pub fn finish(self, peer: &[u8]) -> (out: Result<
        (
            ViaductTx<RpcTx, RequestTx, RpcRx, RequestRx>,
            ViaductRx<RpcTx, RequestTx, RpcRx, RequestRx>,
            Option<Reaper>,
        ),
        ViaductError,
    >)
        ensures
            match verdict(peer@, self.endian, self.word_size) {
                Ok(_) => {
                    &&& out matches Ok(service)
                    &&& service.0@ == (TxView {
                        scratch: Seq::empty(),
                        endian: self.endian,
                        broken: false,
                    })
                    &&& service.1@ == (RxView {
                        pending: Seq::empty(),
                        endian: self.endian,
                        broken: false,
                    })
                    &&& service.2 == self.with_reaper
                },
                Err(error) => out matches Err(refusal) && refusal == error,
            },
    {
        match establish(peer, self.endian, self.word_size) {
            Ok((tx, rx)) => Ok((tx, rx, self.with_reaper)),
            Err(error) => Err(error),
        }
    }
}

/// Interface for creating a viaduct on the **CHILD** process.
///
/// `RpcTx` is the type sent to the parent process for RPC, `RpcRx` the type
/// received from it; `RequestTx` and `RequestRx` likewise for requests. In
/// the parent's code the two of each pair change places. `Reaper` is the type
/// of the callback that a reaper calls when the parent dies.
#[derive(Debug)]
pub struct ViaductChild<RpcTx, RequestTx, RpcRx, RequestRx, Reaper> where
    RpcTx: ViaductSerialize,
    RequestTx: ViaductSerialize,
    RpcRx: ViaductDeserialize,
    RequestRx: ViaductDeserialize,
 {
    with_reaper: Option<Reaper>,
    _phantom: PhantomData<(RpcTx, RequestTx, RpcRx, RequestRx)>,
}

impl<RpcTx, RequestTx, RpcRx, RequestRx, Reaper> ViaductChild<
    RpcTx,
    RequestTx,
    RpcRx,
    RequestRx,
    Reaper,
> where
    RpcTx: ViaductSerialize,
    RequestTx: ViaductSerialize,
    RpcRx: ViaductDeserialize,
    RequestRx: ViaductDeserialize,
 {
    /// The callback of the reaper, where one was asked for.
    pub closed spec fn reaper(self) -> Option<Reaper> {
        self.with_reaper
    }

    /// Starts building a new viaduct in the child process: no reaper is
    /// asked for.
    pub fn new() -> (child: Self)
        ensures
            child.reaper() is None,
    {
        ViaductChild { with_reaper: None, _phantom: PhantomData }
    }

    /// Asks for a reaper: a watcher that calls `callback` once the parent
    /// process has died.
    pub fn with_reaper(self, callback: Reaper) -> (child: Self)
        ensures
            child.reaper() == Some(callback),
    {
        ViaductChild { with_reaper: Some(callback), _phantom: PhantomData }
    }

    /// Reads the pipe handles from the argument list of the child process.
    pub fn build(self, args: &Vec<String>) -> (out: Result<
        Handshake<RpcTx, RequestTx, RpcRx, RequestRx, Reaper>,
        ViaductError,
    >)
        ensures
            match bootstrap(words_view(args@)) {
                Ok((_, handles)) => {
                    &&& out matches Ok(handshake)
                    &&& handshake.handles == handles
                    &&& handshake.with_reaper == self.reaper()
                    &&& handshake.word_size == vstd::layout::size_of::<usize>()
                },
                Err(error) => out matches Err(fault) && fault == error,
            },
    {
        match locate(args) {
            Ok((_, handles)) => Ok(
                Handshake::new(handles, self.with_reaper, Endian::native(), word_size()),
            ),
            Err(error) => Err(error),
        }
    }

    /// Reads the pipe handles from the argument list of the child process,
    /// and tells how many of the arguments are the child's own: those before
    /// the start word. For argument lists that the caller holds in another
    /// form than strings.
    pub fn build_with_args_os(self, args: &Vec<String>) -> (out: Result<
        (Handshake<RpcTx, RequestTx, RpcRx, RequestRx, Reaper>, usize),
        ViaductError,
    >)
        ensures
            match bootstrap(words_view(args@)) {
                Ok((at, handles)) => {
                    &&& out matches Ok((handshake, own))
                    &&& own == at
                    &&& own < args@.len()
                    &&& handshake.handles == handles
                    &&& handshake.with_reaper == self.reaper()
                    &&& handshake.word_size == vstd::layout::size_of::<usize>()
                },
                Err(error) => out matches Err(fault) && fault == error,
            },
    {
        match locate(args) {
            Ok((at, handles)) => {
                let handshake = Handshake::new(
                    handles,
                    self.with_reaper,
                    Endian::native(),
                    word_size(),
                );
                Ok((handshake, at))
            },
            Err(error) => Err(error),
        }
    }

    /// Reads the pipe handles from the argument list of the child process,
    /// and hands back the arguments that are the child's own: those before
    /// the start word, in their order.
    pub fn build_with_args(self, args: Vec<String>) -> (out: Result<
        (Handshake<RpcTx, RequestTx, RpcRx, RequestRx, Reaper>, Vec<String>),
        ViaductError,
    >)
        ensures
            match bootstrap(words_view(args@)) {
                Ok((at, handles)) => {
                    &&& out matches Ok((handshake, own))
                    &&& own@ == args@.take(at)
                    &&& handshake.handles == handles
                    &&& handshake.with_reaper == self.reaper()
                    &&& handshake.word_size == vstd::layout::size_of::<usize>()
                },
                Err(error) => out matches Err(fault) && fault == error,
            },
    {
        match locate(&args) {
            Ok((at, handles)) => {
                let mut own = args;
                own.truncate(at);
                assert(own@ =~= args@.take(at as int));
                Ok(
                    (
                        Handshake::new(handles, self.with_reaper, Endian::native(), word_size()),
                        own,
                    ),
                )
            },
            Err(error) => Err(error),
        }
    }
}

/// Interface for creating a viaduct on the **PARENT** process.
///
/// `RpcTx` is the type sent to the child process for RPC, `RpcRx` the type
/// received from it; `RequestTx` and `RequestRx` likewise for requests. In
/// the child's code the two of each pair change places. `Reaper` is the type
/// of the callback that a reaper calls when the child dies.
#[derive(Debug)]
pub struct ViaductParent<RpcTx, RequestTx, RpcRx, RequestRx, Reaper> where
    RpcTx: ViaductSerialize,
    RequestTx: ViaductSerialize,
    RpcRx: ViaductDeserialize,
    RequestRx: ViaductDeserialize,
 {
    args: Vec<String>,
    handles: PipeHandles,
    with_reaper: Option<Reaper>,
    _phantom: PhantomData<(RpcTx, RequestTx, RpcRx, RequestRx)>,
}

impl<RpcTx, RequestTx, RpcRx, RequestRx, Reaper> ViaductParent<
    RpcTx,
    RequestTx,
    RpcRx,
    RequestRx,
    Reaper,
> where
    RpcTx: ViaductSerialize,
    RequestTx: ViaductSerialize,
    RpcRx: ViaductDeserialize,
    RequestRx: ViaductDeserialize,
 {
    /// The arguments that the user gave for the child.
    pub closed spec fn user_args(self) -> Seq<String> {
        self.args@
    }

    /// The handles that the child is to take over.
    pub closed spec fn handles(self) -> PipeHandles {
        self.handles
    }

    /// The callback of the reaper, where one was asked for.
    pub closed spec fn reaper(self) -> Option<Reaper> {
        self.with_reaper
    }

    /// Initializes the viaduct in the parent process for a child that takes
    /// over the given handles. A handle that is zero is refused: the child
    /// could not read it back.
    pub fn new(handles: PipeHandles) -> (out: Result<Self, ViaductError>)
        ensures
            match out {
                Ok(parent) => {
                    &&& handles.spec_valid()
                    &&& parent.handles() == handles
                    &&& parent.user_args() == Seq::<String>::empty()
                    &&& parent.reaper() is None
                },
                Err(error) => !handles.spec_valid() && error == ViaductError::HandlesMalformed,
            },
    {
        if !handles.valid() {
            return Err(ViaductError::HandlesMalformed);
        }
        Ok(ViaductParent { args: Vec::new(), handles, with_reaper: None, _phantom: PhantomData })
    }

    /// Adds an argument for the child.
    pub fn arg(self, arg: String) -> (parent: Self)
        ensures
            parent.user_args() == self.user_args().push(arg),
            parent.handles() == self.handles(),
            parent.reaper() == self.reaper(),
    {
        let mut parent = self;
        parent.args.push(arg);
        parent
    }

    /// Adds a group of arguments for the child.
    pub fn args(self, args: Vec<String>) -> (parent: Self)
        ensures
            parent.user_args() == self.user_args() + args@,
            parent.handles() == self.handles(),
            parent.reaper() == self.reaper(),
    {
        let mut parent = self;
        let mut args = args;
        parent.args.append(&mut args);
        parent
    }

    /// Asks for a reaper: a watcher that calls `callback` once the child
    /// process has died.
    pub fn with_reaper(self, callback: Reaper) -> (parent: Self)
        ensures
            parent.user_args() == self.user_args(),
            parent.handles() == self.handles(),
            parent.reaper() == Some(callback),
    {
        let mut parent = self;
        parent.with_reaper = Some(callback);
        parent
    }

    /// The argument list to spawn the child with, and the parent's side of
    /// the handshake.
    pub fn build(self) -> (out: (
        Vec<String>,
        Handshake<RpcTx, RequestTx, RpcRx, RequestRx, Reaper>,
    ))
        ensures
            words_view(out.0@) == child_args(words_view(self.user_args()), self.handles()),
            out.1.handles == self.handles(),
            out.1.with_reaper == self.reaper(),
            out.1.word_size == vstd::layout::size_of::<usize>(),
    {
        let handles = self.handles;
        let mut args = self.args;
        let ghost user = words_view(args@);
        args.push(String::from_str("PIPER_START"));
        args.push(render_handle(handles.parent_writer));
        args.push(render_handle(handles.child_reader));
        match handles.reaper {
            Some(reaper) => {
                args.push(render_handle(reaper.writer));
                args.push(render_handle(reaper.reader));
            },
            None => {},
        }
        assert(words_view(args@) =~= child_args(user, handles));
        (args, Handshake::new(handles, self.with_reaper, Endian::native(), word_size()))
    }
}

/// The first start word is found where it stands.
pub proof fn lemma_first_sentinel(args: Seq<Seq<char>>, from: int, at: int)
    requires
        0 <= from <= at < args.len(),
        forall|i: int| from <= i < at ==> #[trigger] args[i] != sentinel(),
        args[at] == sentinel(),
    ensures
        first_sentinel(args, from) == at,
    decreases at - from,
{
    if from < at {
        lemma_first_sentinel(args, from + 1, at);
    }
}

/// The child reads what the parent wrote: from the argument list that the
/// parent builds, the child gets the parent's handles, and its own arguments
/// are exactly the user's, provided none of those is the start word.
pub proof fn lemma_child_reads_parent_args(user: Seq<Seq<char>>, handles: PipeHandles)
    requires
        handles.spec_valid(),
        forall|i: int| 0 <= i < user.len() ==> #[trigger] user[i] != sentinel(),
    ensures
        bootstrap(child_args(user, handles)) == Ok::<(int, PipeHandles), ViaductError>(
            (user.len() as int, handles),
        ),
        child_args(user, handles).take(user.len() as int) == user,
{
    let args = child_args(user, handles);
    let at = user.len() as int;
    assert(args[at] == sentinel());
    assert forall|i: int| 0 <= i < at implies #[trigger] args[i] != sentinel() by {
        assert(args[i] == user[i]);
    }
    lemma_first_sentinel(args, 0, at);
    assert(args.skip(at + 1) =~= handles.words());
    assert(args.take(at) =~= user);
    lemma_parse_rendered_handle(handles.parent_writer);
    lemma_parse_rendered_handle(handles.child_reader);
    match handles.reaper {
        Some(reaper) => {
            lemma_parse_rendered_handle(reaper.writer);
            lemma_parse_rendered_handle(reaper.reader);
        },
        None => {},
    }
}

} // verus!
