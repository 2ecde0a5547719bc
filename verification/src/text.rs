//! Small verified text helpers: decimal rendering of eight-bit numbers,
//! placeholder search and replacement in address templates, and the joining
//! used for diagnostics and synthesized service names.

use vstd::prelude::*;

verus! {

/// Appends one character to a string.
///
/// Relies on `String::push`: it appends exactly the given character to the
/// end of the string.
#[verifier::external_body]
pub fn push_char(s: &mut String, c: char)
    ensures
        final(s)@ == old(s)@ + seq![c],
{
    s.push(c);
}

/// Whether two string slices hold the same characters.
pub fn str_eq(a: &str, b: &str) -> (r: bool)
    ensures
        r == (a@ == b@),
{
    let sa = a.to_owned();
    let sb = b.to_owned();
    sa == sb
}

/// The character of one decimal digit.
pub open spec fn decimal_digit(d: int) -> char {
    if d == 0 {
        '0'
    } else if d == 1 {
        '1'
    } else if d == 2 {
        '2'
    } else if d == 3 {
        '3'
    } else if d == 4 {
        '4'
    } else if d == 5 {
        '5'
    } else if d == 6 {
        '6'
    } else if d == 7 {
        '7'
    } else if d == 8 {
        '8'
    } else {
        '9'
    }
}

/// The decimal digits of an eight-bit number, most significant first and
/// without leading zeroes.
pub open spec fn u8_decimal(n: u8) -> Seq<char> {
    if n < 10 {
        seq![decimal_digit(n as int)]
    } else if n < 100 {
        seq![decimal_digit(n as int / 10), decimal_digit(n as int % 10)]
    } else {
        seq![
            decimal_digit(n as int / 100),
            decimal_digit((n as int / 10) % 10),
            decimal_digit(n as int % 10),
        ]
    }
}

/// One decimal digit as a character.
fn decimal_digit_char(d: u8) -> (c: char)
    requires
        d < 10,
    ensures
        c == decimal_digit(d as int),
{
    if d == 0 {
        '0'
    } else if d == 1 {
        '1'
    } else if d == 2 {
        '2'
    } else if d == 3 {
        '3'
    } else if d == 4 {
        '4'
    } else if d == 5 {
        '5'
    } else if d == 6 {
        '6'
    } else if d == 7 {
        '7'
    } else if d == 8 {
        '8'
    } else {
        '9'
    }
}

/// Renders an eight-bit number as its decimal digits.
pub fn u8_to_decimal(n: u8) -> (r: String)
    ensures
        r@ == u8_decimal(n),
{
    let mut s = String::new();
    if n >= 100 {
        push_char(&mut s, decimal_digit_char(n / 100));
    }
    if n >= 10 {
        push_char(&mut s, decimal_digit_char((n / 10) % 10));
    }
    push_char(&mut s, decimal_digit_char(n % 10));
    assert(s@ =~= u8_decimal(n));
    s
}

/// Whether the character occurs in the sequence.
pub open spec fn seq_contains_char(s: Seq<char>, c: char) -> bool {
    exists|i: int| 0 <= i < s.len() && s[i] == c
}

/// Whether the character occurs in the string.
pub fn str_contains_char(s: &str, c: char) -> (b: bool)
    ensures
        b == seq_contains_char(s@, c),
{
    let n = s.unicode_len();
    let mut i: usize = 0;
    while i < n
        invariant
            n == s@.len(),
            i <= n,
            forall|j: int| 0 <= j < i ==> s@[j] != c,
        decreases n - i,
    {
        if s.get_char(i) == c {
            assert(s@[i as int] == c);
            return true;
        }
        i += 1;
    }
    false
}

/// Whether the template holds the placeholder letter, in either case.
pub open spec fn has_placeholder(t: Seq<char>) -> bool {
    seq_contains_char(t, 'x') || seq_contains_char(t, 'X')
}

/// Whether the template holds the placeholder letter, in either case.
pub fn template_has_placeholder(t: &str) -> (b: bool)
    ensures
        b == has_placeholder(t@),
{
    str_contains_char(t, 'x') || str_contains_char(t, 'X')
}

/// The template with every placeholder letter replaced by `repl`, from
/// position `i` on.
pub open spec fn replace_placeholder_from(t: Seq<char>, repl: Seq<char>, i: int) -> Seq<char>
    decreases t.len() - i,
{
    if i < 0 || i >= t.len() {
        Seq::empty()
    } else if t[i] == 'x' || t[i] == 'X' {
        repl + replace_placeholder_from(t, repl, i + 1)
    } else {
        seq![t[i]] + replace_placeholder_from(t, repl, i + 1)
    }
}

/// The template with every placeholder letter replaced by `repl`.
pub open spec fn replace_placeholder(t: Seq<char>, repl: Seq<char>) -> Seq<char> {
    replace_placeholder_from(t, repl, 0)
}

/// Builds the suffix of the replaced template from position `i` on.
fn str_replace_placeholder_from(t: &str, repl: &str, i: usize, n: usize) -> (r: String)
    requires
        n == t@.len(),
        i <= n,
    ensures
        r@ == replace_placeholder_from(t@, repl@, i as int),
    decreases n - i,
{
    if i == n {
        String::new()
    } else {
        let c = t.get_char(i);
        let mut s = if c == 'x' || c == 'X' {
            repl.to_owned()
        } else {
            let mut one = String::new();
            push_char(&mut one, c);
            one
        };
        let rest = str_replace_placeholder_from(t, repl, i + 1, n);
        s.append(rest.as_str());
        s
    }
}

/// The template with every placeholder letter replaced by `repl`.
pub fn str_replace_placeholder(t: &str, repl: &str) -> (r: String)
    ensures
        r@ == replace_placeholder(t@, repl@),
{
    let n = t.unicode_len();
    str_replace_placeholder_from(t, repl, 0, n)
}

/// The given parts from position `i` on, joined by a comma and a space.
pub open spec fn comma_join_from(parts: Seq<Seq<char>>, i: int) -> Seq<char>
    decreases parts.len() - i,
{
    if i < 0 || i >= parts.len() {
        Seq::empty()
    } else if i == parts.len() - 1 {
        parts[i]
    } else {
        parts[i] + ", "@ + comma_join_from(parts, i + 1)
    }
}

/// All parts joined by a comma and a space.
pub open spec fn comma_join(parts: Seq<Seq<char>>) -> Seq<char> {
    comma_join_from(parts, 0)
}

/// Builds the joined parts from position `i` on.
fn join_comma_from(parts: &Vec<String>, i: usize) -> (r: String)
    requires
        i <= parts.len(),
    ensures
        r@ == comma_join_from(parts.deep_view(), i as int),
    decreases parts.len() - i,
{
    if i == parts.len() {
        String::new()
    } else if i == parts.len() - 1 {
        parts[i].clone()
    } else {
        let mut s = parts[i].clone();
        s.append(", ");
        let rest = join_comma_from(parts, i + 1);
        s.append(rest.as_str());
        s
    }
}

/// All parts joined by a comma and a space.
pub fn join_comma(parts: &Vec<String>) -> (r: String)
    ensures
        r@ == comma_join(parts.deep_view()),
{
    join_comma_from(parts, 0)
}

/// Three names joined by hyphens, as in a synthesized service name.
pub open spec fn hyphen_join3(a: Seq<char>, b: Seq<char>, c: Seq<char>) -> Seq<char> {
    a + seq!['-'] + b + seq!['-'] + c
}

/// Builds `a-b-c`, the synthesized service name shape.
pub fn build_hyphen_join3(a: &str, b: &str, c: &str) -> (r: String)
    ensures
        r@ == hyphen_join3(a@, b@, c@),
{
    let mut s = a.to_owned();
    push_char(&mut s, '-');
    s.append(b);
    push_char(&mut s, '-');
    s.append(c);
    assert(s@ =~= hyphen_join3(a@, b@, c@));
    s
}

/// The diagnostic context naming a team: `team a`.
pub open spec fn team_context(name: Seq<char>) -> Seq<char> {
    "team "@ + name
}

/// Builds the diagnostic context naming a team.
pub fn build_team_context(name: &str) -> (r: String)
    ensures
        r@ == team_context(name@),
{
    let mut s = String::from_str("team ");
    s.append(name);
    assert(s@ =~= team_context(name@));
    s
}

/// The diagnostic context naming a service on a machine: `service a-b`.
pub open spec fn service_context(machine: Seq<char>, service: Seq<char>) -> Seq<char> {
    "service "@ + machine + seq!['-'] + service
}

/// Builds the diagnostic context naming a service on a machine.
pub fn build_service_context(machine: &str, service: &str) -> (r: String)
    ensures
        r@ == service_context(machine@, service@),
{
    let mut s = String::from_str("service ");
    s.append(machine);
    push_char(&mut s, '-');
    s.append(service);
    assert(s@ =~= service_context(machine@, service@));
    s
}

} // verus!
