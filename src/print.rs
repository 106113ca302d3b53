use vstd::prelude::*;
use vstd::string::StringSliceAdditionalSpecFns;

verus! {

/// The bytes of `s` before its first NUL, or all of them when it has none.
pub open spec fn until_nul(s: Seq<u8>) -> Seq<u8>
    decreases s.len(),
{
    if s.len() == 0 || s[0] == 0 {
        Seq::empty()
    } else {
        seq![s[0]] + until_nul(s.drop_first())
    }
}

proof fn lemma_until_nul_step(s: Seq<u8>, i: int)
    requires
        0 <= i < s.len(),
        s[i] != 0,
        forall|j: int| 0 <= j < i ==> s[j] != 0,
    ensures
        until_nul(s.subrange(0, i + 1)) == until_nul(s.subrange(0, i)).push(s[i]),
    decreases i,
{
    let a = s.subrange(0, i + 1);
    let b = s.subrange(0, i);
    if i == 0 {
        assert(a.drop_first() =~= Seq::<u8>::empty());
        assert(b =~= Seq::<u8>::empty());
        assert(seq![s[0]] + Seq::<u8>::empty() =~= Seq::<u8>::empty().push(s[0]));
    } else {
        let t = s.drop_first();
        lemma_until_nul_step(t, i - 1);
        assert(a.drop_first() =~= t.subrange(0, i));
        assert(b.drop_first() =~= t.subrange(0, i - 1));
        assert(seq![s[0]] + until_nul(t.subrange(0, i - 1)).push(s[i]) =~= (seq![s[0]] + until_nul(
            t.subrange(0, i - 1),
        )).push(s[i]));
    }
}

proof fn lemma_until_nul_stop(s: Seq<u8>, i: int)
    requires
        0 <= i <= s.len(),
        i < s.len() ==> s[i] == 0,
        forall|j: int| 0 <= j < i ==> s[j] != 0,
    ensures
        until_nul(s) == until_nul(s.subrange(0, i)),
    decreases i,
{
    if i == 0 {
        assert(s.subrange(0, 0) =~= Seq::<u8>::empty());
    } else {
        let t = s.drop_first();
        lemma_until_nul_stop(t, i - 1);
        assert(s.subrange(0, i).drop_first() =~= t.subrange(0, i - 1));
    }
}

/// The bytes the firmware's character-output call prints for a message:
/// those before its terminating NUL.
pub fn printable_bytes(message: &str) -> (r: Vec<u8>)
    ensures
        r@ == until_nul(message.spec_bytes()),
{
    let bytes = message.as_bytes();
    let mut out: Vec<u8> = Vec::new();
    let mut i: usize = 0;
    while i < bytes.len() && bytes[i] != 0
        invariant
            i <= bytes@.len(),
            bytes@ == message.spec_bytes(),
            forall|j: int| 0 <= j < i ==> bytes@[j] != 0,
            out@ == until_nul(bytes@.subrange(0, i as int)),
        decreases bytes@.len() - i,
    {
        proof {
            lemma_until_nul_step(bytes@, i as int);
        }
        out.push(bytes[i]);
        i = i + 1;
    }
    proof {
        lemma_until_nul_stop(bytes@, i as int);
    }
    out
}

/// Text output through the firmware's teletype call.
pub struct Printer {}

impl Printer {
    /// The bytes the teletype call receives for `message`.
    pub fn print(&self, message: &str) -> (r: Vec<u8>)
        ensures
            r@ == until_nul(message.spec_bytes()),
    {
        printable_bytes(message)
    }
}

} // verus!
