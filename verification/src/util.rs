//! Identifier case conversion and the fresh-name supply.

use vstd::prelude::*;

verus! {

/// Is `c` an ASCII capital letter?
pub open spec fn is_ascii_uppercase(c: char) -> bool {
    'A' <= c && c <= 'Z'
}

/// The lowercase form of `c`: capitals are shifted into `'a'..='z'`, every
/// other character is left unchanged.
pub open spec fn lower_char(c: char) -> char {
    if is_ascii_uppercase(c) {
        ((c as u32) + 32) as char
    } else {
        c
    }
}

/// snake_case conversion of an identifier: every character is emitted in
/// lowercase form, and a `'_'` separator is inserted before each capital
/// letter that is not the first character.
pub open spec fn snake_case_of(s: Seq<char>) -> Seq<char>
    decreases s.len(),
{
    if s.len() == 0 {
        Seq::empty()
    } else if s.len() > 1 && is_ascii_uppercase(s.last()) {
        snake_case_of(s.drop_last()) + seq!['_', lower_char(s.last())]
    } else {
        snake_case_of(s.drop_last()) + seq![lower_char(s.last())]
    }
}

/// Whole-string lowercasing, with no separators inserted.
pub open spec fn lower_flat_of(s: Seq<char>) -> Seq<char>
    decreases s.len(),
{
    if s.len() == 0 {
        Seq::empty()
    } else {
        lower_flat_of(s.drop_last()).push(lower_char(s.last()))
    }
}

/// Relies on `String::push`: appends the given character to the end of the
/// string.
#[verifier::external_body]
fn push_char(s: &mut String, c: char)
    ensures
        final(s)@ == old(s)@.push(c),
{
    s.push(c);
}

/// Convert a declared identifier to snake_case, the naming convention used
/// for every generated method name.
pub fn to_snake_case(ident: &str) -> (out: String)
    ensures
        out@ == snake_case_of(ident@),
{
    let n = ident.unicode_len();
    let mut out = String::new();
    let mut i: usize = 0;
    while i < n
        invariant
            i <= n,
            n == ident@.len(),
            out@ == snake_case_of(ident@.take(i as int)),
        decreases n - i,
    {
        let c = ident.get_char(i);
        if i > 0 && 'A' <= c && c <= 'Z' {
            push_char(&mut out, '_');
        }
        let lc: char = if 'A' <= c && c <= 'Z' {
            ((c as u8) + 32) as char
        } else {
            c
        };
        push_char(&mut out, lc);
        proof {
            assert(ident@.take(i as int + 1).drop_last() =~= ident@.take(i as int));
            assert(ident@.take(i as int + 1).last() == ident@[i as int]);
        }
        i = i + 1;
    }
    proof {
        assert(ident@.take(n as int) =~= ident@);
    }
    out
}

/// Convert a declared identifier to its lowercase flat form, with no
/// separators inserted. This is the historical naming convention kept by the
/// library; generated method names use [`to_snake_case`] instead.
pub fn to_lower_flat(ident: &str) -> (out: String)
    ensures
        out@ == lower_flat_of(ident@),
{
    let n = ident.unicode_len();
    let mut out = String::new();
    let mut i: usize = 0;
    while i < n
        invariant
            i <= n,
            n == ident@.len(),
            out@ == lower_flat_of(ident@.take(i as int)),
        decreases n - i,
    {
        let c = ident.get_char(i);
        let lc: char = if 'A' <= c && c <= 'Z' {
            ((c as u8) + 32) as char
        } else {
            c
        };
        push_char(&mut out, lc);
        proof {
            assert(ident@.take(i as int + 1).drop_last() =~= ident@.take(i as int));
            assert(ident@.take(i as int + 1).last() == ident@[i as int]);
        }
        i = i + 1;
    }
    proof {
        assert(ident@.take(n as int) =~= ident@);
    }
    out
}

/// The `k`-th name handed out by a fresh-name supply: `k / 26` copies of
/// `'z'` followed by the letter at offset `k % 26` in the alphabet. Counting
/// therefore proceeds a, b, ..., z, za, zb, ..., zz, zza, ...
pub open spec fn fresh_name(k: nat) -> Seq<char> {
    Seq::new(k / 26 + 1, |i: int| if i < k as int / 26 { 'z' } else { ((k % 26) + 97) as char })
}

/// No character of a snake_case conversion is an ASCII capital letter.
proof fn lemma_snake_case_no_uppercase(s: Seq<char>)
    ensures
        forall|i: int|
            0 <= i < snake_case_of(s).len() ==> !is_ascii_uppercase(#[trigger] snake_case_of(s)[i]),
    decreases s.len(),
{
    if s.len() > 0 {
        lemma_snake_case_no_uppercase(s.drop_last());
        let pre = snake_case_of(s.drop_last());
        assert(!is_ascii_uppercase('_'));
        assert(!is_ascii_uppercase(lower_char(s.last())));
        assert forall|i: int|
            0 <= i < snake_case_of(s).len() implies !is_ascii_uppercase(
            snake_case_of(s)[i],
        ) by {
            if i < pre.len() {
                assert(snake_case_of(s)[i] == pre[i]);
            }
        }
    }
}

/// Law: converting an identifier that is already in snake_case form — one
/// with no ASCII capital letters — changes nothing.
pub proof fn lemma_snake_case_fixed_point(s: Seq<char>)
    requires
        forall|i: int| 0 <= i < s.len() ==> !is_ascii_uppercase(#[trigger] s[i]),
    ensures
        snake_case_of(s) == s,
    decreases s.len(),
{
    if s.len() > 0 {
        lemma_snake_case_fixed_point(s.drop_last());
        assert(snake_case_of(s) =~= s);
    } else {
        assert(snake_case_of(s) =~= s);
    }
}

/// Law: snake_case conversion is idempotent — converting a second time
/// returns the first conversion unchanged.
pub proof fn lemma_snake_case_idempotent(s: Seq<char>)
    ensures
        snake_case_of(snake_case_of(s)) == snake_case_of(s),
{
    lemma_snake_case_no_uppercase(s);
    lemma_snake_case_fixed_point(snake_case_of(s));
}

/// Law: distinct counter values yield distinct names, so however many times
/// one supply is asked, the names it returns are pairwise distinct.
pub proof fn lemma_fresh_names_distinct(j: nat, k: nat)
    requires
        j != k,
    ensures
        fresh_name(j) != fresh_name(k),
{
    if j / 26 == k / 26 {
        vstd::arithmetic::div_mod::lemma_fundamental_div_mod(j as int, 26);
        vstd::arithmetic::div_mod::lemma_fundamental_div_mod(k as int, 26);
        assert(j % 26 != k % 26);
        assert(fresh_name(j).last() != fresh_name(k).last());
    } else {
        assert(fresh_name(j).len() != fresh_name(k).len());
    }
}

/// The characters spelled by a sequence of ASCII bytes.
spec fn chars_of_bytes(s: Seq<u8>) -> Seq<char>
    decreases s.len(),
{
    if s.len() == 0 {
        Seq::empty()
    } else {
        chars_of_bytes(s.drop_last()).push(s.last() as char)
    }
}

proof fn lemma_chars_of_bytes_elts(s: Seq<u8>)
    ensures
        chars_of_bytes(s).len() == s.len(),
        forall|i: int| 0 <= i < s.len() ==> chars_of_bytes(s)[i] == s[i] as char,
    decreases s.len(),
{
    if s.len() > 0 {
        lemma_chars_of_bytes_elts(s.drop_last());
    }
}

/// A restartable supply of short synthetic binding names, used to destructure
/// the fields of a multi-field tuple variant inside one generated method
/// body. The supply is a base-26 counter over `'a'..='z'`; on overflow past
/// `'z'` a new least-significant letter is appended rather than carried, so
/// the names never repeat.
pub struct UniqueIdentifierIterator {
    buffer: Vec<u8>,
}

impl UniqueIdentifierIterator {
    /// The counter is well formed when every byte but the last is `'z'` and
    /// the last byte is a lowercase letter.
    pub closed spec fn wf(&self) -> bool {
        &&& self.buffer@.len() >= 1
        &&& forall|i: int| 0 <= i < self.buffer@.len() - 1 ==> self.buffer@[i] == 122u8
        &&& 97 <= self.buffer@.last() <= 122
    }

    /// How many names have been handed out so far.
    pub closed spec fn counter(&self) -> nat {
        (26 * (self.buffer@.len() - 1) + (self.buffer@.last() - 97)) as nat
    }

    /// A fresh supply, whose first name is `"a"`.
    pub fn new() -> (supply: Self)
        ensures
            supply.wf(),
            supply.counter() == 0,
    {
        let mut buffer: Vec<u8> = Vec::new();
        buffer.push(97);
        UniqueIdentifierIterator { buffer }
    }

    /// Return the current name and advance the counter.
    pub fn next(&mut self) -> (name: String)
        requires
            old(self).wf(),
        ensures
            final(self).wf(),
            final(self).counter() == old(self).counter() + 1,
            name@ == fresh_name(old(self).counter()),
    {
        let ghost k = self.counter();
        let len = self.buffer.len();
        let mut name = String::new();
        let mut i: usize = 0;
        while i < len
            invariant
                i <= len,
                len == self.buffer@.len(),
                self.buffer@ == old(self).buffer@,
                name@ == chars_of_bytes(self.buffer@.take(i as int)),
            decreases len - i,
        {
            let b = self.buffer[i];
            push_char(&mut name, b as char);
            proof {
                assert(self.buffer@.take(i as int + 1).drop_last() =~= self.buffer@.take(i as int));
                assert(self.buffer@.take(i as int + 1).last() == self.buffer@[i as int]);
            }
            i = i + 1;
        }
        proof {
            assert(self.buffer@.take(len as int) =~= self.buffer@);
            let last = self.buffer@.last() as int;
            vstd::arithmetic::div_mod::lemma_fundamental_div_mod_converse(
                k as int,
                26,
                len - 1,
                last - 97,
            );
            lemma_chars_of_bytes_elts(self.buffer@);
            assert(name@ =~= fresh_name(k));
        }
        let last_pos = self.buffer.len() - 1;
        let last_byte = self.buffer[last_pos];
        if last_byte < 122 {
            self.buffer.set(last_pos, last_byte + 1);
        } else {
            self.buffer.push(97);
        }
        proof {
            let lastn = self.buffer@.last() as int;
            vstd::arithmetic::div_mod::lemma_fundamental_div_mod_converse(
                k as int + 1,
                26,
                self.buffer@.len() - 1,
                lastn - 97,
            );
        }
        name
    }
}

} // verus!
