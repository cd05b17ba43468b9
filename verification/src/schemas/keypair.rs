//! Module that holds everything that is necessary for the `Keypairs`
use vstd::prelude::*;

use crate::text::{chars_of, push_char};

verus! {

/// A keypair that is used by a client or server
#[derive(Debug)]
pub struct Keypair {
    /// The id of the keypair
    pub id: i32,
    /// The public key of the keypair
    pub public_key: String,
    /// The private key of the keypair
    pub private_key: String,
}

/// A keypair that is insertable into the database.
pub struct NewKeypair<'a> {
    pub public_key: &'a str,
    pub private_key: &'a str,
}

impl Keypair {
    /// A copy of the keypair.
    pub fn duplicate(&self) -> (r: Keypair)
        ensures
            r == *self,
    {
        Keypair {
            id: self.id,
            public_key: self.public_key.clone(),
            private_key: self.private_key.clone(),
        }
    }
}

/// `s` with every line break (`\n`) removed.
pub open spec fn without_line_breaks(s: Seq<char>) -> Seq<char>
    decreases s.len(),
{
    if s.len() == 0 {
        s
    } else if s.last() == '\n' {
        without_line_breaks(s.drop_last())
    } else {
        without_line_breaks(s.drop_last()).push(s.last())
    }
}

/// Removing the line breaks of a text leaves none, keeps every other character in its
/// order (a text without line breaks stays as it is), and so changes nothing a second
/// time.
pub proof fn lemma_without_line_breaks(s: Seq<char>)
    ensures
        !without_line_breaks(s).contains('\n'),
        !s.contains('\n') ==> without_line_breaks(s) == s,
        without_line_breaks(without_line_breaks(s)) == without_line_breaks(s),
    decreases s.len(),
{
    if s.len() > 0 {
        let init = s.drop_last();
        lemma_without_line_breaks(init);
        let rest = without_line_breaks(init);
        assert(s =~= init.push(s.last()));
        if !s.contains('\n') {
            assert forall|i: int| 0 <= i < init.len() implies init[i] != '\n' by {
                assert(init[i] == s[i]);
            }
            assert(s[s.len() - 1] == s.last());
        }
        if s.last() != '\n' {
            let pushed = rest.push(s.last());
            assert forall|i: int| 0 <= i < pushed.len() implies pushed[i] != '\n' by {
                if i < rest.len() {
                    assert(pushed[i] == rest[i]);
                }
            }
            assert(pushed.drop_last() =~= rest);
        }
    }
}

/// The key that `wg genkey` or `wg pubkey` printed, with its line breaks removed
/// (`text.replace("\n", "")`).
pub fn strip_line_breaks(text: &str) -> (r: String)
    ensures
        r@ == without_line_breaks(text@),
{
    let chars = chars_of(text);
    let mut r = String::new();
    let mut i: usize = 0;
    while i < chars.len()
        invariant
            i <= chars.len(),
            chars@ == text@,
            r@ == without_line_breaks(chars@.take(i as int)),
        decreases chars.len() - i,
    {
        let c = chars[i];
        assert(chars@.take(i + 1).drop_last() =~= chars@.take(i as int));
        if c != '\n' {
            push_char(&mut r, c);
        }
        i = i + 1;
    }
    assert(chars@.take(chars.len() as int) =~= chars@);
    r
}

} // verus!
