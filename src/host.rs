//! The host side of the interface a compiled module calls into when it runs:
//! the argument-access functions and the reading of text out of the
//! module's memory.

use vstd::prelude::*;
use vstd::string::StrSliceExecFns;
use vstd::utf8::*;

use crate::text::{decimal, decimal_text};

verus! {

/// Encoding a concatenation encodes each part in turn.
pub proof fn lemma_encode_concat(a: Seq<char>, b: Seq<char>)
    ensures
        encode_utf8(a + b) == encode_utf8(a) + encode_utf8(b),
    decreases a.len(),
{
    if a.len() == 0 {
        assert(a + b =~= b);
    } else {
        assert((a + b).drop_first() =~= a.drop_first() + b);
        assert((a + b)[0] == a[0]);
        lemma_encode_concat(a.drop_first(), b);
        assert(encode_utf8(a + b) =~= encode_utf8(a) + encode_utf8(b));
    }
}

/// Appends the UTF-8 encoding of `c` to `out`.
fn push_encoded(out: &mut Vec<u8>, c: char)
    ensures
        final(out)@ == old(out)@ + encode_scalar(c as u32),
{
    let v = c as u32;
    if v <= 0x7F {
        out.push((v & 0x7F) as u8);
    } else if v <= 0x7FF {
        out.push(0xC0 | ((v >> 6) & 0x1F) as u8);
        out.push(0x80 | (v & 0x3F) as u8);
    } else if v <= 0xFFFF {
        out.push(0xE0 | ((v >> 12) & 0x0F) as u8);
        out.push(0x80 | ((v >> 6) & 0x3F) as u8);
        out.push(0x80 | (v & 0x3F) as u8);
    } else {
        out.push(0xF0 | ((v >> 18) & 0x7) as u8);
        out.push(0x80 | ((v >> 12) & 0x3F) as u8);
        out.push(0x80 | ((v >> 6) & 0x3F) as u8);
        out.push(0x80 | (v & 0x3F) as u8);
    }
    proof {
        char_is_scalar(c);
        assert(final(out)@ =~= old(out)@ + encode_scalar(c as u32));
    }
}

/// The bytes an argument is served as: the UTF-8 encoding of its characters
/// in reverse order.
pub open spec fn served_bytes(arg: Seq<char>) -> Seq<u8> {
    encode_utf8(arg.reverse())
}

/// The UTF-8 encoding of the characters of `arg` in reverse order.
pub fn reversed_bytes(arg: &str) -> (r: Vec<u8>)
    ensures
        r@ == served_bytes(arg@),
{
    let n = arg.unicode_len();
    let mut out: Vec<u8> = Vec::new();
    let mut i: usize = n;
    proof {
        assert(arg@.reverse().take(0) =~= Seq::<char>::empty());
    }
    while i > 0
        invariant
            n == arg@.len(),
            i <= n,
            out@ == encode_utf8(arg@.reverse().take(n - i)),
        decreases i,
    {
        let c = arg.get_char(i - 1);
        push_encoded(&mut out, c);
        proof {
            let rev = arg@.reverse();
            assert(rev[n - i] == c);
            assert(rev.take(n - i + 1) =~= rev.take(n - i) + seq![c]);
            lemma_encode_concat(rev.take(n - i), seq![c]);
            assert(encode_utf8(seq![c]) =~= encode_scalar(c as u32)) by {
                assert(seq![c].drop_first() =~= Seq::<char>::empty());
                assert(seq![c][0] == c);
                assert(encode_utf8(Seq::<char>::empty()) =~= Seq::<u8>::empty());
            }
        }
        i -= 1;
    }
    proof {
        assert(arg@.reverse().take(n as int) =~= arg@.reverse());
    }
    out
}

/// The value an argument-access function returns for a byte index: the
/// byte at that index of the served bytes, or 0 past their end.
pub open spec fn arg_byte(bytes: Seq<u8>, index: int) -> int {
    if 0 <= index < bytes.len() {
        bytes[index] as int
    } else {
        0
    }
}

/// The name of the argument-access function of argument `i`.
pub open spec fn arg_import(i: nat) -> Seq<char> {
    "arg"@ + decimal(i)
}

/// The namespace of the argument-access functions.
pub open spec fn args_namespace() -> Seq<char> {
    "args"@
}

/// The arguments of a run, fixed when the run starts: argument `i` is
/// served by the function `arg<i>` of the `args` namespace, which returns
/// bytes of the argument's characters taken in reverse order.
pub struct ArgTable {
    served: Vec<Vec<u8>>,
}

impl View for ArgTable {
    type V = Seq<Seq<u8>>;

    closed spec fn view(&self) -> Seq<Seq<u8>> {
        self.served@.map_values(|b: Vec<u8>| b@)
    }
}

impl ArgTable {
    /// The table serving `args`, in their order.
    pub fn new(args: &Vec<String>) -> (t: ArgTable)
        ensures
            t@.len() == args@.len(),
            forall|i: int| 0 <= i < args@.len() ==> #[trigger] t@[i] == served_bytes(args@[i]@),
    {
        let mut served: Vec<Vec<u8>> = Vec::new();
        let n = args.len();
        let mut i: usize = 0;
        while i < n
            invariant
                n == args.len(),
                i <= n,
                served@.len() == i,
                forall|j: int| 0 <= j < i ==> #[trigger] served@[j]@ == served_bytes(args@[j]@),
            decreases n - i,
        {
            served.push(reversed_bytes(args[i].as_str()));
            i += 1;
        }
        ArgTable { served }
    }

    /// How many arguments the table serves.
    pub fn len(&self) -> (n: usize)
        ensures
            n == self@.len(),
    {
        self.served.len()
    }

    /// The name of the function that serves argument `i`.
    pub fn import_name(&self, i: usize) -> (r: String)
        ensures
            r@ == arg_import(i as nat),
    {
        let mut r = "arg".to_owned();
        r.append(decimal_text(i as u64).as_str());
        r
    }

    /// What the function of argument `arg` returns for byte index `index`.
    pub fn byte(&self, arg: usize, index: i64) -> (r: i64)
        requires
            arg < self@.len(),
        ensures
            r as int == arg_byte(self@[arg as int], index as int),
    {
        let bytes = &self.served[arg];
        if index < 0 || index as u64 >= bytes.len() as u64 {
            0
        } else {
            bytes[index as usize] as i64
        }
    }
}

/// Why a run failed.
#[derive(Debug)]
pub enum RunError {
    /// The module did not load or validate.
    InvalidModule { reason: String },
    /// The module trapped, or could not be instantiated.
    Trap { reason: String },
    /// The module named memory outside its linear memory.
    OutOfBounds { ptr: i64, len: i64 },
    /// The module asked to print bytes that are not UTF-8 text.
    InvalidText,
}

/// The model of a [`RunError`].
pub enum RunFault {
    InvalidModule(Seq<char>),
    Trap(Seq<char>),
    OutOfBounds(i64, i64),
    InvalidText,
}

impl View for RunError {
    type V = RunFault;

    open spec fn view(&self) -> RunFault {
        match self {
            RunError::InvalidModule { reason } => RunFault::InvalidModule(reason@),
            RunError::Trap { reason } => RunFault::Trap(reason@),
            RunError::OutOfBounds { ptr, len } => RunFault::OutOfBounds(*ptr, *len),
            RunError::InvalidText => RunFault::InvalidText,
        }
    }
}

/// Whether `len` bytes from `ptr` lie within a memory of `size` bytes.
pub open spec fn in_memory(size: int, ptr: int, len: int) -> bool {
    0 <= ptr && 0 <= len && ptr + len <= size
}

/// The text a module prints from its memory: the `len` bytes at `ptr`,
/// which must lie within the memory and be UTF-8.
pub open spec fn guest_text_of(memory: Seq<u8>, ptr: i64, len: i64) -> Result<Seq<char>, RunFault> {
    if !in_memory(memory.len() as int, ptr as int, len as int) {
        Err(RunFault::OutOfBounds(ptr, len))
    } else {
        let bytes = memory.subrange(ptr as int, ptr + len);
        if valid_utf8(bytes) {
            Ok(decode_utf8(bytes))
        } else {
            Err(RunFault::InvalidText)
        }
    }
}

/// Relies on `std::str::from_utf8`: it accepts exactly the well-formed
/// UTF-8 byte sequences, and decodes them.
#[verifier::external_body]
fn utf8_text(bytes: &[u8]) -> (r: Option<String>)
    ensures
        r is Some <==> valid_utf8(bytes@),
        r matches Some(s) ==> s@ == decode_utf8(bytes@),
{
    std::str::from_utf8(bytes).ok().map(|s| s.to_string())
}

/// Reads the text a module asks to print: `len` bytes of its memory from
/// `ptr`, checked against the memory's bounds before any is read.
pub fn guest_text(memory: &[u8], ptr: i64, len: i64) -> (r: Result<String, RunError>)
    ensures
        match (r, guest_text_of(memory@, ptr, len)) {
            (Ok(s), Ok(t)) => s@ == t,
            (Err(e), Err(f)) => e@ == f,
            _ => false,
        },
{
    if ptr < 0 || len < 0 || ptr as u64 > memory.len() as u64 || len as u64 > memory.len() as u64
        - ptr as u64 {
        return Err(RunError::OutOfBounds { ptr, len });
    }
    let start = ptr as usize;
    let end = start + len as usize;
    let mut bytes: Vec<u8> = Vec::new();
    let mut i: usize = start;
    while i < end
        invariant
            start <= i <= end,
            end <= memory@.len(),
            bytes@ == memory@.subrange(start as int, i as int),
        decreases end - i,
    {
        bytes.push(memory[i]);
        proof {
            assert(bytes@ =~= memory@.subrange(start as int, i + 1));
        }
        i += 1;
    }
    match utf8_text(bytes.as_slice()) {
        Some(s) => Ok(s),
        None => Err(RunError::InvalidText),
    }
}

} // verus!
