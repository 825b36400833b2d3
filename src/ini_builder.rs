//! An append-only emitter of INI-style text.

use vstd::prelude::*;
use vstd::string::StringExecFns;

verus! {

/// The text of `n` in decimal notation, without leading zeros.
pub open spec fn decimal(n: nat) -> Seq<char>
    decreases n,
{
    if n < 10 {
        seq![digit_char(n)]
    } else {
        decimal(n / 10).push(digit_char(n % 10))
    }
}

/// The ASCII digit for `d` (`d < 10`).
pub open spec fn digit_char(d: nat) -> char {
    ((d + 48) as u8) as char
}

/// The text of a signed integer in decimal notation.
pub open spec fn signed_decimal(n: int) -> Seq<char> {
    if n < 0 {
        seq!['-'] + decimal((-n) as nat)
    } else {
        decimal(n as nat)
    }
}

/// `[name]` and a line break.
pub open spec fn section_line(name: Seq<char>) -> Seq<char> {
    seq!['['] + name + seq![']', '\n']
}

/// `key = value` and a line break.
pub open spec fn setting_line(key: Seq<char>, value: Seq<char>) -> Seq<char> {
    key + seq![' ', '=', ' '] + value + seq!['\n']
}

/// The items joined by `", "`.
pub open spec fn comma_joined(items: Seq<Seq<char>>) -> Seq<char>
    decreases items.len(),
{
    if items.len() == 0 {
        Seq::empty()
    } else if items.len() == 1 {
        items[0]
    } else {
        comma_joined(items.drop_last()) + seq![',', ' '] + items.last()
    }
}

/// A value that can stand on the right of `key = value`.
pub trait IniValue {
    /// The text the value is written as.
    spec fn ini_text(&self) -> Seq<char>;

    fn to_ini_text(&self) -> (r: String)
        ensures
            r@ == self.ini_text(),
    ;
}

/// Relies on `String::push`: the character is appended at the end.
#[verifier::external_body]
fn push_char(s: &mut String, c: char)
    ensures
        final(s)@ == old(s)@.push(c),
{
    s.push(c);
}

/// Appends the decimal text of `n` to `s`.
pub(crate) fn push_decimal(s: &mut String, n: u64)
    ensures
        final(s)@ == old(s)@ + decimal(n as nat),
    decreases n,
{
    if n >= 10 {
        push_decimal(s, n / 10);
    }
    let d: u8 = (n % 10) as u8;
    push_char(s, (d + 48) as char);
    assert(old(s)@ + decimal(n as nat) =~= final(s)@) by {
        if n < 10 {
            assert(old(s)@ + seq![digit_char(n as nat)] =~= old(s)@.push(digit_char(n as nat)));
        }
    }
}

impl<'a> IniValue for &'a str {
    open spec fn ini_text(&self) -> Seq<char> {
        (**self)@
    }

    fn to_ini_text(&self) -> (r: String) {
        let s: &str = *self;
        s.to_owned()
    }
}

impl IniValue for String {
    open spec fn ini_text(&self) -> Seq<char> {
        self@
    }

    fn to_ini_text(&self) -> (r: String) {
        self.clone()
    }
}

impl IniValue for u16 {
    open spec fn ini_text(&self) -> Seq<char> {
        decimal(*self as nat)
    }

    fn to_ini_text(&self) -> (r: String) {
        let mut s = String::new();
        push_decimal(&mut s, *self as u64);
        s
    }
}

impl IniValue for u32 {
    open spec fn ini_text(&self) -> Seq<char> {
        decimal(*self as nat)
    }

    fn to_ini_text(&self) -> (r: String) {
        let mut s = String::new();
        push_decimal(&mut s, *self as u64);
        s
    }
}

impl IniValue for i32 {
    open spec fn ini_text(&self) -> Seq<char> {
        signed_decimal(*self as int)
    }

    fn to_ini_text(&self) -> (r: String) {
        let mut s = String::new();
        if *self < 0 {
            push_char(&mut s, '-');
            let magnitude: i64 = -(*self as i64);
            push_decimal(&mut s, magnitude as u64);
        } else {
            push_decimal(&mut s, *self as u64);
        }
        s
    }
}

/// Builds INI text line by line, in the order of the calls.
pub struct IniBuilder {
    pub output: String,
}

impl IniBuilder {
    /// Appends `[section]`.
    pub fn add_section(&mut self, section: &str)
        ensures
            final(self).output@ == old(self).output@ + section_line(section@),
    {
        self.output.append("[");
        self.output.append(section);
        self.output.append("]\n");
        proof {
            reveal_strlit("[");
            reveal_strlit("]\n");
        }
        assert(final(self).output@ =~= old(self).output@ + section_line(section@));
    }

    fn push_setting(&mut self, key: &str, value: &str)
        ensures
            final(self).output@ == old(self).output@ + setting_line(key@, value@),
    {
        self.output.append(key);
        self.output.append(" = ");
        self.output.append(value);
        self.output.append("\n");
        proof {
            reveal_strlit(" = ");
            reveal_strlit("\n");
        }
        assert(final(self).output@ =~= old(self).output@ + setting_line(key@, value@));
    }

    /// Appends `key = value`.
    pub fn add_setting<V: IniValue>(&mut self, key: &str, value: V)
        ensures
            final(self).output@ == old(self).output@ + setting_line(key@, value.ini_text()),
    {
        let text = value.to_ini_text();
        self.push_setting(key, text.as_str());
    }

    /// Appends `key = value` when a value is present; does nothing otherwise.
    pub fn add_optional<V: IniValue>(&mut self, key: &str, value: &Option<V>)
        ensures
            match value {
                Some(v) => final(self).output@ == old(self).output@ + setting_line(key@, v.ini_text()),
                None => final(self).output@ == old(self).output@,
            },
    {
        if let Some(v) = value {
            let text = v.to_ini_text();
            self.push_setting(key, text.as_str());
        }
    }

    /// Appends `key = v1, v2, ...`; does nothing when there are no values.
    pub fn add_comma_separated<V: IniValue>(&mut self, key: &str, values: &Vec<V>)
        ensures
            values@.len() == 0 ==> final(self).output@ == old(self).output@,
            values@.len() > 0 ==> final(self).output@ == old(self).output@ + setting_line(
                key@,
                comma_joined(values@.map_values(|v: V| v.ini_text())),
            ),
    {
        if values.len() == 0 {
            return;
        }
        let mut joined = String::new();
        let mut i: usize = 0;
        while i < values.len()
            invariant
                i <= values@.len(),
                i == 0 ==> joined@.len() == 0,
                i > 0 ==> joined@ == comma_joined(
                    values@.subrange(0, i as int).map_values(|v: V| v.ini_text()),
                ),
            decreases values@.len() - i,
        {
            let text = values[i].to_ini_text();
            let ghost before = joined@;
            if i > 0 {
                joined.append(", ");
            }
            joined.append(text.as_str());
            proof {
                reveal_strlit(", ");
                let items = values@.subrange(0, i + 1).map_values(|v: V| v.ini_text());
                assert(items.drop_last() =~= values@.subrange(0, i as int).map_values(
                    |v: V| v.ini_text(),
                ));
                if i == 0 {
                    assert(joined@ =~= items[0]);
                } else {
                    assert(joined@ =~= before + seq![',', ' '] + items.last());
                }
            }
            i = i + 1;
        }
        assert(values@.subrange(0, values@.len() as int) =~= values@);
        self.push_setting(key, joined.as_str());
    }

    /// The text built so far.
    pub fn build(self) -> (r: String)
        ensures
            r@ == self.output@,
    {
        self.output
    }
}

/// An empty builder.
pub fn new() -> (r: IniBuilder)
    ensures
        r.output@ == Seq::<char>::empty(),
{
    IniBuilder { output: String::new() }
}

} // verus!
