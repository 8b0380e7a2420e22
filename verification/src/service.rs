//! The operations of the test service that a guest component exports.
use vstd::prelude::*;

verus! {

/// `String::push`: appends one character to the end of the string.
#[verifier::external_body]
fn push_char(s: &mut String, c: char)
    ensures
        final(s)@ == old(s)@.push(c),
{
    s.push(c);
}

/// The characters of a string, in order.
fn char_vec(input: &str) -> (res: Vec<char>)
    ensures
        res@ == input@,
{
    let mut out: Vec<char> = Vec::new();
    for c in it: input.chars()
        invariant
            out@ == it.seq().take(it.index() as int),
    {
        out.push(c);
    }
    out
}

/// The guest component of the test service.
pub struct TestComponent;

impl TestComponent {
    /// Returns 'test'.
    pub fn test() -> (res: String)
        ensures
            res@ == "test"@,
    {
        "test".to_owned()
    }

    /// Returns what is sent.
    pub fn echo(message: String) -> (res: String)
        ensures
            res@ == message@,
    {
        message
    }

    /// Returns a string's characters, each as a string of its own.
    pub fn chars(input: &str) -> (res: Vec<String>)
        ensures
            res@.len() == input@.len(),
            forall|i: int| 0 <= i < input@.len() ==> (#[trigger] res@[i])@ == seq![input@[i]],
    {
        let cs = char_vec(input);
        let mut out: Vec<String> = Vec::new();
        let mut i: usize = 0;
        while i < cs.len()
            invariant
                cs@ == input@,
                i <= cs@.len(),
                out@.len() == i,
                forall|k: int| 0 <= k < i ==> (#[trigger] out@[k])@ == seq![input@[k]],
            decreases cs@.len() - i,
        {
            let mut s = String::new();
            push_char(&mut s, cs[i]);
            out.push(s);
            i = i + 1;
        }
        out
    }

    /// Returns the string reversed.
    pub fn reverse(input: &str) -> (res: String)
        ensures
            res@ == input@.reverse(),
    {
        let cs = char_vec(input);
        let mut out = String::new();
        let mut i: usize = cs.len();
        while i > 0
            invariant
                cs@ == input@,
                i <= cs@.len(),
                out@ == input@.subrange(i as int, input@.len() as int).reverse(),
            decreases i,
        {
            i = i - 1;
            push_char(&mut out, cs[i]);
            assert(input@.subrange(i as int, input@.len() as int).reverse() =~= input@.subrange(
                i + 1,
                input@.len() as int,
            ).reverse().push(input@[i as int]));
        }
        assert(input@.subrange(0, input@.len() as int) =~= input@);
        out
    }

    /// Wraps the string with the given left and right strings.
    pub fn wrap(left: &str, right: &str, input: &str) -> (res: String)
        ensures
            res@ == left@ + input@ + right@,
    {
        let mut out = left.to_owned();
        out.append(input);
        out.append(right);
        out
    }
}

/// Reversing a string twice gives it back.
pub proof fn law_reverse_twice(s: Seq<char>)
    ensures
        s.reverse().reverse() == s,
{
    assert(s.reverse().reverse() =~= s);
}

/// The characters that `chars` returns, joined again, give back the string.
pub proof fn law_chars_rejoin(s: Seq<char>, pieces: Seq<Seq<char>>)
    requires
        pieces.len() == s.len(),
        forall|i: int| 0 <= i < s.len() ==> #[trigger] pieces[i] == seq![s[i]],
    ensures
        pieces.flatten() == s,
    decreases s.len(),
{
    if s.len() > 0 {
        let rest = pieces.drop_first();
        assert forall|i: int| 0 <= i < s.drop_first().len() implies #[trigger] rest[i] == seq![s.drop_first()[i]] by {
            assert(rest[i] == pieces[i + 1]);
        }
        law_chars_rejoin(s.drop_first(), rest);
        assert(pieces[0] == seq![s[0]]);
        assert(pieces.flatten() == pieces[0] + rest.flatten());
        assert(seq![s[0]] + s.drop_first() =~= s);
    } else {
        assert(pieces =~= Seq::<Seq<char>>::empty());
        assert(s =~= Seq::<char>::empty());
    }
}

} // verus!
