use vstd::prelude::*;
use crate::text::{opt_char, hex_digits, push_hex};
use crate::width::{char_width_of, display_width, width_is_valid, is_printable_ascii};

verus! {

/// The characters and the body width, in columns, of a progress bar.
#[derive(Debug, Copy, Clone)]
pub struct Config {
    pub filled: char,
    pub empty: char,
    pub arrow: Option<char>,
    pub left_border: Option<char>,
    pub right_border: Option<char>,
    pub error: char,
    pub bar_width: u16,
}

/// The message of a rejected configuration.
#[derive(Debug)]
pub struct ErrMsg(String);

impl View for ErrMsg {
    type V = Seq<char>;

    closed spec fn view(&self) -> Seq<char> {
        self.0@
    }
}

impl ErrMsg {
    /// The text of the message.
    pub fn message(&self) -> (r: &String)
        ensures
            r@ == self@,
    {
        &self.0
    }
}

/// Every character that a configuration holds, in the order filled, empty,
/// arrow, left border, right border, error.
pub open spec fn config_chars(cfg: Config) -> Seq<char> {
    seq![cfg.filled, cfg.empty] + opt_char(cfg.arrow) + opt_char(cfg.left_border)
        + opt_char(cfg.right_border) + seq![cfg.error]
}

/// Every character of the configuration occupies one or two columns.
pub open spec fn config_valid(cfg: Config) -> bool {
    forall|i: int|
        0 <= i < config_chars(cfg).len() ==> #[trigger] width_is_valid(
            char_width_of(config_chars(cfg)[i]),
        )
}

/// Every character of the configuration is printable ASCII.
pub open spec fn config_ascii(cfg: Config) -> bool {
    forall|i: int| 0 <= i < config_chars(cfg).len() ==> #[trigger] is_printable_ascii(config_chars(cfg)[i])
}

/// The characters of `s` whose width is not one or two columns, in order.
pub open spec fn invalid_chars(s: Seq<char>) -> Seq<char>
    decreases s.len(),
{
    if s.len() == 0 {
        Seq::empty()
    } else {
        let rest = invalid_chars(s.drop_last());
        if width_is_valid(char_width_of(s.last())) {
            rest
        } else {
            rest.push(s.last())
        }
    }
}

/// `'c' (0x..)`: a character and its code point.
pub open spec fn describe_char(c: char) -> Seq<char> {
    seq!['\'', c, '\'', ' ', '(', '0', 'x'] + hex_digits(c as u32 as nat) + seq![')']
}

/// The descriptions of the characters of `s`, separated by `", "`.
pub open spec fn joined_descriptions(s: Seq<char>) -> Seq<char>
    decreases s.len(),
{
    if s.len() == 0 {
        Seq::empty()
    } else if s.len() == 1 {
        describe_char(s[0])
    } else {
        joined_descriptions(s.drop_last()) + seq![',', ' '] + describe_char(s.last())
    }
}

pub open spec fn invalid_header() -> Seq<char> {
    "Invalid Char Error.\nfollowing characters is invalid for progress bar\n"@
}

/// The message that lists the rejected characters `invalid`.
pub open spec fn invalid_message(invalid: Seq<char>) -> Seq<char> {
    invalid_header() + joined_descriptions(invalid)
}

/// A character stands in `invalid_chars(s)` exactly when it stands in `s` and
/// its width is not one or two columns.
pub proof fn lemma_invalid_chars_members(s: Seq<char>)
    ensures
        forall|c: char|
            #[trigger] invalid_chars(s).contains(c) <==> (s.contains(c) && !width_is_valid(
                char_width_of(c),
            )),
    decreases s.len(),
{
    if s.len() > 0 {
        let init = s.drop_last();
        let rest = invalid_chars(init);
        lemma_invalid_chars_members(init);
        assert forall|c: char|
            #[trigger] invalid_chars(s).contains(c) <==> (s.contains(c) && !width_is_valid(
                char_width_of(c),
            )) by {
            let last_ok = width_is_valid(char_width_of(s.last()));
            if s.contains(c) && !width_is_valid(char_width_of(c)) {
                let k = choose|k: int| 0 <= k < s.len() && s[k] == c;
                if k < s.len() - 1 {
                    assert(init[k] == c);
                    assert(init.contains(c));
                    assert(rest.contains(c));
                    let m = choose|m: int| 0 <= m < rest.len() && rest[m] == c;
                    if !last_ok {
                        assert(rest.push(s.last())[m] == c);
                    }
                    assert(invalid_chars(s)[m] == c);
                } else {
                    assert(invalid_chars(s) == rest.push(c));
                    assert(invalid_chars(s)[rest.len() as int] == c);
                }
            }
            if invalid_chars(s).contains(c) {
                let k = choose|k: int| 0 <= k < invalid_chars(s).len() && invalid_chars(s)[k] == c;
                if k < rest.len() {
                    if !last_ok {
                        assert(rest.push(s.last())[k] == rest[k]);
                    }
                    assert(rest[k] == c);
                    assert(rest.contains(c));
                    let m = choose|m: int| 0 <= m < init.len() && init[m] == c;
                    assert(s[m] == c);
                } else {
                    assert(!last_ok);
                    assert(invalid_chars(s) == rest.push(s.last()));
                    assert(s.last() == c);
                    assert(s[s.len() - 1] == c);
                }
            }
        }
    }
}

/// The message that lists the rejected characters `invalid`, each with its
/// code point.
pub fn describe_invalid_chars(invalid: &Vec<char>) -> (r: ErrMsg)
    ensures
        r@ == invalid_message(invalid@),
{
    let mut s = String::new();
    s.append("Invalid Char Error.\nfollowing characters is invalid for progress bar\n");
    let mut i: usize = 0;
    while i < invalid.len()
        invariant
            i <= invalid.len(),
            s@ == invalid_message(invalid@.subrange(0, i as int)),
        decreases invalid.len() - i,
    {
        let ghost before = s@;
        let c = invalid[i];
        if i > 0 {
            s.push(',');
            s.push(' ');
        }
        s.push('\'');
        s.push(c);
        s.push('\'');
        s.push(' ');
        s.push('(');
        s.push('0');
        s.push('x');
        push_hex(&mut s, c as u32);
        s.push(')');
        proof {
            let prefix = invalid@.subrange(0, i as int + 1);
            assert(prefix.drop_last() =~= invalid@.subrange(0, i as int));
            assert(prefix.last() == c);
            if i == 0 {
                assert(prefix.len() == 1);
                assert(s@ =~= before + describe_char(c));
            } else {
                assert(s@ =~= before + seq![',', ' '] + describe_char(c));
            }
        }
        i = i + 1;
    }
    assert(invalid@.subrange(0, i as int) =~= invalid@);
    ErrMsg(s)
}

impl Config {
    /// Checks that every character of the configuration is one or two columns
    /// wide; otherwise the error lists each offending character.
    pub fn check_invalid_chars(&self) -> (r: Result<(), ErrMsg>)
        ensures
            r is Ok <==> config_valid(*self),
            r matches Err(e) ==> e@ == invalid_message(invalid_chars(config_chars(*self))),
            config_ascii(*self) ==> config_valid(*self),
    {
        let mut chars: Vec<char> = Vec::new();
        chars.push(self.filled);
        chars.push(self.empty);
        if let Some(c) = self.arrow {
            chars.push(c);
        }
        if let Some(c) = self.left_border {
            chars.push(c);
        }
        if let Some(c) = self.right_border {
            chars.push(c);
        }
        chars.push(self.error);
        assert(chars@ =~= config_chars(*self));

        let mut invalid: Vec<char> = Vec::new();
        let mut i: usize = 0;
        while i < chars.len()
            invariant
                i <= chars.len(),
                chars@ == config_chars(*self),
                invalid@ == invalid_chars(chars@.subrange(0, i as int)),
                forall|j: int|
                    0 <= j < i && is_printable_ascii(#[trigger] chars@[j]) ==> char_width_of(
                        chars@[j],
                    ) == Some(1usize),
            decreases chars.len() - i,
        {
            let c = chars[i];
            let w = display_width(c);
            let valid = match w {
                Some(n) => 1 <= n && n <= 2,
                None => false,
            };
            if !valid {
                invalid.push(c);
            }
            proof {
                let prefix = chars@.subrange(0, i as int + 1);
                assert(prefix.drop_last() =~= chars@.subrange(0, i as int));
            }
            i = i + 1;
        }
        let ghost all = chars@;
        proof {
            assert(all.subrange(0, i as int) =~= all);
            lemma_invalid_chars_members(all);
            if config_ascii(*self) {
                assert forall|j: int| 0 <= j < all.len() implies #[trigger] width_is_valid(
                    char_width_of(all[j]),
                ) by {
                    assert(is_printable_ascii(all[j]));
                }
            }
            if invalid@.len() > 0 {
                let c = invalid@[0];
                assert(invalid@.contains(c));
                let j = choose|j: int| 0 <= j < all.len() && all[j] == c;
                assert(!width_is_valid(char_width_of(all[j])));
            }
            if !config_valid(*self) {
                let j = choose|j: int|
                    0 <= j < all.len() && !#[trigger] width_is_valid(char_width_of(all[j]));
                assert(all.contains(all[j]));
                assert(invalid@.contains(all[j]));
            }
        }
        if invalid.len() == 0 {
            Ok(())
        } else {
            Err(describe_invalid_chars(&invalid))
        }
    }
}

} // verus!
