//! Random passwords over chosen classes of characters.

use crate::chance::{pick_char, shuffle_chars};
use crate::strength::{is_score_label, score_label};
use crate::text_ops::string_of;
use vstd::prelude::*;
use vstd::string::*;

verus! {

/// Upper-case letters, without the two that read like digits.
pub const UPPER: &'static str = "ABCDEFGHIJKMNPQRSTUVWXYZ";

/// Lower-case letters, without the two that read like digits.
pub const LOWER: &'static str = "abcdefghijkmnpqrstuvwxyz";

/// Digits, without zero.
pub const NUMBERS: &'static str = "123456789";

/// Punctuation.
pub const SYMBOLS: &'static str = "!@#$%^&*-_=+?/";

/// Why no password was made.
#[derive(Debug, Clone, Copy, PartialEq, Eq, Structural)]
pub enum GenPassError {
    /// No class of characters was selected.
    NoCharset,
    /// The length leaves no room beyond one character of each selected
    /// class.
    TooShort,
}

impl GenPassError {
    /// The characters of the refusal's report.
    pub open spec fn message_text(self) -> Seq<char> {
        match self {
            GenPassError::NoCharset => "No character set selected"@,
            GenPassError::TooShort => "Password length too short for selected character types"@,
        }
    }

    /// The refusal's report, as a program shows it.
    pub fn message(self) -> (text: String)
        ensures
            text@ == self.message_text(),
    {
        match self {
            GenPassError::NoCharset => "No character set selected".to_owned(),
            GenPassError::TooShort => "Password length too short for selected character types".to_owned(),
        }
    }
}

/// The length that is used for a requested one: at least 4.
pub open spec fn clamped_len(len: u8) -> nat {
    if len < 4 {
        4
    } else {
        len as nat
    }
}

/// The characters of `set` if it is selected, none otherwise.
pub open spec fn selected(set: Seq<char>, use_set: bool) -> Seq<char> {
    if use_set {
        set
    } else {
        Seq::empty()
    }
}

/// 1 for a selected class, 0 for another.
pub open spec fn one_if(use_set: bool) -> nat {
    if use_set {
        1
    } else {
        0
    }
}

/// How many of the four classes are selected.
pub open spec fn selected_count(upper: bool, lower: bool, num: bool, sym: bool) -> nat {
    one_if(upper) + one_if(lower) + one_if(num) + one_if(sym)
}

/// All characters of the selected classes.
pub open spec fn charset(upper: bool, lower: bool, num: bool, sym: bool) -> Seq<char> {
    selected(UPPER@, upper) + selected(LOWER@, lower) + selected(NUMBERS@, num) + selected(
        SYMBOLS@,
        sym,
    )
}

/// Why a request is refused, if it is.
pub open spec fn refusal(len: u8, upper: bool, lower: bool, num: bool, sym: bool) -> Option<
    GenPassError,
> {
    if selected_count(upper, lower, num, sym) == 0 {
        Some(GenPassError::NoCharset)
    } else if clamped_len(len) <= selected_count(upper, lower, num, sym) {
        Some(GenPassError::TooShort)
    } else {
        None
    }
}

/// Whether `text` holds a character of `set`.
pub open spec fn shares_char(text: Seq<char>, set: Seq<char>) -> bool {
    exists|c: char| #[trigger] text.contains(c) && set.contains(c)
}

/// Whether every character of `text` is one of `set`.
pub open spec fn drawn_from(text: Seq<char>, set: Seq<char>) -> bool {
    forall|c: char| #[trigger] text.contains(c) ==> set.contains(c)
}

/// What holds of every password that is made for a request: it has the
/// clamped length, all its characters come from the selected classes, and
/// each selected class is present.
pub open spec fn password_fits(
    password: Seq<char>,
    len: u8,
    upper: bool,
    lower: bool,
    num: bool,
    sym: bool,
) -> bool {
    &&& password.len() == clamped_len(len)
    &&& drawn_from(password, charset(upper, lower, num, sym))
    &&& upper ==> shares_char(password, UPPER@)
    &&& lower ==> shares_char(password, LOWER@)
    &&& num ==> shares_char(password, NUMBERS@)
    &&& sym ==> shares_char(password, SYMBOLS@)
}

/// The sizes of the four classes. None is empty.
pub proof fn lemma_set_sizes()
    ensures
        UPPER@.len() == 24,
        LOWER@.len() == 24,
        NUMBERS@.len() == 9,
        SYMBOLS@.len() == 14,
{
    reveal_strlit("ABCDEFGHIJKMNPQRSTUVWXYZ");
    reveal_strlit("abcdefghijkmnpqrstuvwxyz");
    reveal_strlit("123456789");
    reveal_strlit("!@#$%^&*-_=+?/");
}

/// Every character of the four classes is an ASCII character.
pub proof fn lemma_charset_ascii(upper: bool, lower: bool, num: bool, sym: bool)
    ensures
        vstd::utf8::is_ascii_chars(charset(upper, lower, num, sym)),
{
    reveal_strlit("ABCDEFGHIJKMNPQRSTUVWXYZ");
    reveal_strlit("abcdefghijkmnpqrstuvwxyz");
    reveal_strlit("123456789");
    reveal_strlit("!@#$%^&*-_=+?/");
    assert(vstd::utf8::is_ascii_chars(UPPER@));
    assert(vstd::utf8::is_ascii_chars(LOWER@));
    assert(vstd::utf8::is_ascii_chars(NUMBERS@));
    assert(vstd::utf8::is_ascii_chars(SYMBOLS@));
}

/// Whatever order a shuffle leaves, what `password_fits` asks for is kept.
pub proof fn lemma_shuffle_keeps_fit(
    before: Seq<char>,
    after: Seq<char>,
    len: u8,
    upper: bool,
    lower: bool,
    num: bool,
    sym: bool,
)
    requires
        before.to_multiset() == after.to_multiset(),
        password_fits(before, len, upper, lower, num, sym),
    ensures
        password_fits(after, len, upper, lower, num, sym),
{
    before.to_multiset_ensures();
    after.to_multiset_ensures();
    assert forall|c: char| before.contains(c) implies after.contains(c) by {
        assert(after.to_multiset().count(c) > 0);
    }
    assert forall|c: char| after.contains(c) implies before.contains(c) by {
        assert(before.to_multiset().count(c) > 0);
    }
    lemma_same_members_share(before, after, UPPER@);
    lemma_same_members_share(before, after, LOWER@);
    lemma_same_members_share(before, after, NUMBERS@);
    lemma_same_members_share(before, after, SYMBOLS@);
}

/// A text that holds every character of another shares a character with
/// each set that the other shares one with.
proof fn lemma_same_members_share(before: Seq<char>, after: Seq<char>, set: Seq<char>)
    requires
        forall|c: char| before.contains(c) ==> after.contains(c),
    ensures
        shares_char(before, set) ==> shares_char(after, set),
{
    if shares_char(before, set) {
        let c = choose|c: char| #[trigger] before.contains(c) && set.contains(c);
        assert(after.contains(c) && set.contains(c));
    }
}

/// The length that is used for a requested one.
pub fn clamp_length(len: u8) -> (used: u8)
    ensures
        used == clamped_len(len),
{
    if len < 4 {
        4
    } else {
        len
    }
}

/// What pushing one character does to the members of a text.
proof fn lemma_push_members(shorter: Seq<char>, c: char)
    ensures
        shorter.push(c).contains(c),
        forall|x: char| shorter.contains(x) ==> #[trigger] shorter.push(c).contains(x),
        forall|x: char| #[trigger] shorter.push(c).contains(x) ==> shorter.contains(x) || x == c,
{
    let longer = shorter.push(c);
    assert(longer[shorter.len() as int] == c);
    assert forall|x: char| shorter.contains(x) implies #[trigger] longer.contains(x) by {
        let i = choose|i: int| 0 <= i < shorter.len() && shorter[i] == x;
        assert(longer[i] == x);
    }
    assert forall|x: char| #[trigger] longer.contains(x) implies shorter.contains(x) || x == c by {
        let i = choose|i: int| 0 <= i < longer.len() && longer[i] == x;
        if i < shorter.len() {
            assert(shorter[i] == x);
        }
    }
}

/// The members of two texts put together are the members of either.
proof fn lemma_concat_members(a: Seq<char>, b: Seq<char>)
    ensures
        forall|x: char| #[trigger] (a + b).contains(x) <==> a.contains(x) || b.contains(x),
{
    assert forall|x: char| #[trigger] (a + b).contains(x) <==> a.contains(x) || b.contains(
        x,
    ) by {
        if a.contains(x) {
            let i = choose|i: int| 0 <= i < a.len() && a[i] == x;
            assert((a + b)[i] == x);
        }
        if b.contains(x) {
            let i = choose|i: int| 0 <= i < b.len() && b[i] == x;
            assert((a + b)[a.len() + i] == x);
        }
        if (a + b).contains(x) {
            let i = choose|i: int| 0 <= i < (a + b).len() && (a + b)[i] == x;
            if i < a.len() {
                assert(a[i] == x);
            } else {
                assert(b[i - a.len()] == x);
            }
        }
    }
}

/// One random character of a set that is not empty.
fn random_from_set(set: &str) -> (c: char)
    requires
        set@.len() > 0,
    ensures
        set@.contains(c),
{
    match pick_char(set) {
        Some(c) => c,
        None => vstd::pervasive::unreached(),
    }
}

/// The characters in a random order, as a text.
fn shuffled_string(chars: Vec<char>) -> (shuffled: String)
    ensures
        shuffled@.to_multiset() == chars@.to_multiset(),
{
    let mut chars = chars;
    shuffle_chars(&mut chars);
    string_of(&chars)
}

/// Adds a class to the character set and one random character of it to the
/// password, if the class is selected.
fn add_set(set: &str, use_set: bool, all: &mut String, password: &mut Vec<char>)
    requires
        set@.len() > 0,
    ensures
        final(all)@ == old(all)@ + selected(set@, use_set),
        final(password)@.len() == old(password)@.len() + one_if(use_set),
        forall|x: char| old(password)@.contains(x) ==> #[trigger] final(password)@.contains(x),
        forall|x: char| #[trigger]
            final(password)@.contains(x) ==> old(password)@.contains(x) || selected(
                set@,
                use_set,
            ).contains(x),
        use_set ==> shares_char(final(password)@, set@),
{
    if use_set {
        all.append(set);
        let c = random_from_set(set);
        proof {
            lemma_push_members(password@, c);
        }
        password.push(c);
    } else {
        assert(all@ + Seq::<char>::empty() =~= all@);
    }
}

/// Makes a password of `len` characters, at least 4, from the selected
/// classes, with at least one character of each, in random order. With it
/// come the label of its estimated strength and a note on the scale.
///
/// A request that selects no class is refused, and so is one whose length
/// is not greater than the number of selected classes.
pub fn process_gen_pass(len: u8, upper: bool, lower: bool, num: bool, sym: bool) -> (made: Result<
    (String, String, String),
    GenPassError,
>)
    ensures
        match refusal(len, upper, lower, num, sym) {
            Some(e) => made == Err::<(String, String, String), GenPassError>(e),
            None => made matches Ok((password, score, scale)) && password_fits(
                password@,
                len,
                upper,
                lower,
                num,
                sym,
            ) && is_score_label(score@) && scale@ == "score 1 to 4, 4 is best"@,
        },
{
    proof {
        lemma_set_sizes();
    }
    let used = clamp_length(len);
    let mut all = String::new();
    let mut password: Vec<char> = Vec::new();
    add_set(UPPER, upper, &mut all, &mut password);
    let ghost one = password@;
    add_set(LOWER, lower, &mut all, &mut password);
    let ghost two = password@;
    add_set(NUMBERS, num, &mut all, &mut password);
    let ghost three = password@;
    add_set(SYMBOLS, sym, &mut all, &mut password);
    proof {
        lemma_same_members_share(one, password@, UPPER@);
        lemma_same_members_share(two, password@, LOWER@);
        lemma_same_members_share(three, password@, NUMBERS@);
    }
    assert(all@ =~= charset(upper, lower, num, sym));
    proof {
        let a = selected(UPPER@, upper);
        let b = selected(LOWER@, lower);
        let c = selected(NUMBERS@, num);
        let d = selected(SYMBOLS@, sym);
        lemma_concat_members(a, b);
        lemma_concat_members(a + b, c);
        lemma_concat_members(a + b + c, d);
    }
    if password.len() == 0 {
        return Err(GenPassError::NoCharset);
    }
    if used as usize <= password.len() {
        return Err(GenPassError::TooShort);
    }
    while password.len() < used as usize
        invariant
            password@.len() <= used,
            all@.len() > 0,
            drawn_from(password@, all@),
            upper ==> shares_char(password@, UPPER@),
            lower ==> shares_char(password@, LOWER@),
            num ==> shares_char(password@, NUMBERS@),
            sym ==> shares_char(password@, SYMBOLS@),
        decreases used - password@.len(),
    {
        let ghost shorter = password@;
        let c = random_from_set(all.as_str());
        password.push(c);
        proof {
            lemma_push_members(shorter, c);
            lemma_same_members_share(shorter, password@, UPPER@);
            lemma_same_members_share(shorter, password@, LOWER@);
            lemma_same_members_share(shorter, password@, NUMBERS@);
            lemma_same_members_share(shorter, password@, SYMBOLS@);
        }
    }
    let ghost filled = password@;
    let password = shuffled_string(password);
    proof {
        lemma_shuffle_keeps_fit(filled, password@, len, upper, lower, num, sym);
    }
    let score = score_label(password.as_str());
    Ok((password, score, "score 1 to 4, 4 is best".to_owned()))
}

} // verus!
