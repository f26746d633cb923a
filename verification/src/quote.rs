use vstd::prelude::*;

use crate::text::{chars_of, push_char};

verus! {

/// What a single quote inside a single-quoted shell word becomes: close the quotes, a quote in
/// double quotes, reopen.
pub open spec fn quote_break() -> Seq<char> {
    seq!['\'', '"', '\'', '"', '\'']
}

/// The body of a single-quoted shell word for `s`: every `'` is replaced by `'"'"'`.
pub open spec fn shell_escape(s: Seq<char>) -> Seq<char>
    decreases s.len(),
{
    if s.len() == 0 {
        Seq::empty()
    } else {
        (if s[0] == '\'' { quote_break() } else { seq![s[0]] }) + shell_escape(s.drop_first())
    }
}

/// `value` as one single-quoted POSIX shell word.
pub open spec fn shell_quote_spec(value: Seq<char>) -> Seq<char> {
    seq!['\''] + shell_escape(value) + seq!['\'']
}

proof fn lemma_shell_escape_push(s: Seq<char>, c: char)
    ensures
        shell_escape(s.push(c)) == shell_escape(s) + (if c == '\'' { quote_break() } else { seq![c] }),
    decreases s.len(),
{
    if s.len() == 0 {
        assert(s.push(c).drop_first() =~= Seq::<char>::empty());
        assert(shell_escape(s.push(c)) =~= (if c == '\'' { quote_break() } else { seq![c] }) + shell_escape(Seq::<char>::empty()));
    } else {
        assert(s.push(c).drop_first() =~= s.drop_first().push(c));
        lemma_shell_escape_push(s.drop_first(), c);
        assert(s.push(c)[0] == s[0]);
        let head = if s[0] == '\'' { quote_break() } else { seq![s[0]] };
        let tail = if c == '\'' { quote_break() } else { seq![c] };
        assert(head + (shell_escape(s.drop_first()) + tail) =~= (head + shell_escape(s.drop_first())) + tail);
    }
}

/// Quotes `value` for a POSIX shell: wraps it in single quotes and writes each `'` as `'"'"'`.
pub fn shell_quote(value: &str) -> (r: String)
    ensures
        r@ == shell_quote_spec(value@),
{
    let chars = chars_of(value);
    let mut r = String::new();
    push_char(&mut r, '\'');
    let n = chars.len();
    let mut i: usize = 0;
    while i < n
        invariant
            n == chars@.len(),
            i <= n,
            r@ == seq!['\''] + shell_escape(chars@.take(i as int)),
        decreases n - i,
    {
        let c = chars[i];
        proof {
            assert(chars@.take(i + 1) =~= chars@.take(i as int).push(c));
            lemma_shell_escape_push(chars@.take(i as int), c);
        }
        if c == '\'' {
            push_char(&mut r, '\'');
            push_char(&mut r, '"');
            push_char(&mut r, '\'');
            push_char(&mut r, '"');
            push_char(&mut r, '\'');
        } else {
            push_char(&mut r, c);
        }
        i = i + 1;
        assert(r@ =~= seq!['\''] + shell_escape(chars@.take(i as int)));
    }
    push_char(&mut r, '\'');
    assert(chars@.take(n as int) =~= chars@);
    assert(r@ =~= shell_quote_spec(value@));
    r
}

/// Puts `c` in front of a successful read.
pub open spec fn prepend(c: char, r: Option<Seq<char>>) -> Option<Seq<char>> {
    match r {
        Some(v) => Some(seq![c] + v),
        None => None,
    }
}

/// How a POSIX shell reads the characters `w` of one word: `mode` 0 is outside quotes, 1 inside
/// single quotes (everything literal up to the next `'`), 2 inside double quotes (literal up to the
/// next `"`, where `\`, `$` and backquote would be special). Outside quotes only characters
/// without a special meaning are taken literally. `None` where the word is incomplete or uses a
/// construct beyond plain quoting.
pub open spec fn shell_read(w: Seq<char>, mode: nat) -> Option<Seq<char>>
    decreases w.len(),
{
    if w.len() == 0 {
        if mode == 0 { Some(Seq::empty()) } else { None }
    } else {
        let c = w[0];
        let t = w.drop_first();
        if mode == 1 {
            if c == '\'' { shell_read(t, 0) } else { prepend(c, shell_read(t, 1)) }
        } else if mode == 2 {
            if c == '"' {
                shell_read(t, 0)
            } else if c == '\\' || c == '$' || c == '`' {
                None
            } else {
                prepend(c, shell_read(t, 2))
            }
        } else {
            if c == '\'' {
                shell_read(t, 1)
            } else if c == '"' {
                shell_read(t, 2)
            } else if ('a' <= c <= 'z') || ('A' <= c <= 'Z') || ('0' <= c <= '9') || c == '/' || c == '.'
                || c == '_' || c == '-' {
                prepend(c, shell_read(t, 0))
            } else {
                None
            }
        }
    }
}

proof fn lemma_read_escaped(s: Seq<char>, rest: Seq<char>)
    ensures
        shell_read(shell_escape(s) + rest, 1) == match shell_read(rest, 1) {
            Some(v) => Some(s + v),
            None => None::<Seq<char>>,
        },
    decreases s.len(),
{
    if s.len() == 0 {
        assert(shell_escape(s) + rest =~= rest);
        match shell_read(rest, 1) {
            Some(v) => { assert(s + v =~= v); },
            None => {},
        }
    } else {
        let t = s.drop_first();
        lemma_read_escaped(t, rest);
        let w = shell_escape(s) + rest;
        let inner = shell_escape(t) + rest;
        if s[0] == '\'' {
            assert(w =~= quote_break() + inner);
            // ' closes the quotes, " opens double quotes, ' is literal, " closes, ' reopens
            assert(w.drop_first() =~= seq!['"', '\'', '"', '\''] + inner);
            assert(w.drop_first().drop_first() =~= seq!['\'', '"', '\''] + inner);
            assert(w.drop_first().drop_first().drop_first() =~= seq!['"', '\''] + inner);
            assert(w.drop_first().drop_first().drop_first().drop_first() =~= seq!['\''] + inner);
            assert(w.drop_first().drop_first().drop_first().drop_first().drop_first() =~= inner);
            assert(shell_read(seq!['\''] + inner, 0) == shell_read(inner, 1));
            assert(shell_read(seq!['"', '\''] + inner, 2) == shell_read(inner, 1));
            assert(shell_read(seq!['\'', '"', '\''] + inner, 2) == prepend('\'', shell_read(inner, 1)));
            assert(shell_read(seq!['"', '\'', '"', '\''] + inner, 0) == prepend('\'', shell_read(inner, 1)));
            assert(shell_read(w, 1) == prepend('\'', shell_read(inner, 1)));
        } else {
            assert(w =~= seq![s[0]] + inner);
            assert(w.drop_first() =~= inner);
            assert(shell_read(w, 1) == prepend(s[0], shell_read(inner, 1)));
        }
        match shell_read(rest, 1) {
            Some(v) => { assert(s + v =~= seq![s[0]] + (t + v)); },
            None => {},
        }
    }
}

/// Quoting is faithful: a POSIX shell reads the word that `shell_quote` writes back as exactly
/// the original value, whatever characters it holds.
pub proof fn shell_quote_reads_back(value: Seq<char>)
    ensures
        shell_read(shell_quote_spec(value), 0) == Some(value),
{
    let w = shell_quote_spec(value);
    assert(w.drop_first() =~= shell_escape(value) + seq!['\'']);
    lemma_read_escaped(value, seq!['\'']);
    assert(seq!['\''].drop_first() =~= Seq::<char>::empty());
    assert(seq!['\''][0] == '\'');
    assert(shell_read(Seq::<char>::empty(), 0) == Some(Seq::<char>::empty()));
    assert(shell_read(seq!['\''], 1) == Some(Seq::<char>::empty()));
    assert(value + Seq::<char>::empty() =~= value);
}

/// The escape of one character inside a double-quoted curl config value.
pub open spec fn curl_escape_char(c: char) -> Seq<char> {
    if c == '\\' {
        seq!['\\', '\\']
    } else if c == '"' {
        seq!['\\', '"']
    } else {
        seq![c]
    }
}

/// `value` with every backslash and double quote escaped by a backslash.
pub open spec fn curl_escape(value: Seq<char>) -> Seq<char>
    decreases value.len(),
{
    if value.len() == 0 {
        Seq::empty()
    } else {
        curl_escape_char(value[0]) + curl_escape(value.drop_first())
    }
}

proof fn lemma_curl_escape_push(s: Seq<char>, c: char)
    ensures
        curl_escape(s.push(c)) == curl_escape(s) + curl_escape_char(c),
    decreases s.len(),
{
    if s.len() == 0 {
        assert(s.push(c).drop_first() =~= Seq::<char>::empty());
        assert(curl_escape(s.push(c)) =~= curl_escape_char(c) + curl_escape(Seq::<char>::empty()));
    } else {
        assert(s.push(c).drop_first() =~= s.drop_first().push(c));
        lemma_curl_escape_push(s.drop_first(), c);
        assert(s.push(c)[0] == s[0]);
        assert(curl_escape_char(s[0]) + (curl_escape(s.drop_first()) + curl_escape_char(c))
            =~= (curl_escape_char(s[0]) + curl_escape(s.drop_first())) + curl_escape_char(c));
    }
}

/// Escapes `value` for a double-quoted value in a curl config file: `\` becomes `\\`, then `"`
/// becomes `\"`.
pub fn curl_config_quote(value: &str) -> (r: String)
    ensures
        r@ == curl_escape(value@),
{
    let chars = chars_of(value);
    let mut r = String::new();
    let n = chars.len();
    let mut i: usize = 0;
    while i < n
        invariant
            n == chars@.len(),
            i <= n,
            r@ == curl_escape(chars@.take(i as int)),
        decreases n - i,
    {
        let c = chars[i];
        proof {
            assert(chars@.take(i + 1) =~= chars@.take(i as int).push(c));
            lemma_curl_escape_push(chars@.take(i as int), c);
        }
        if c == '\\' {
            push_char(&mut r, '\\');
            push_char(&mut r, '\\');
        } else if c == '"' {
            push_char(&mut r, '\\');
            push_char(&mut r, '"');
        } else {
            push_char(&mut r, c);
        }
        i = i + 1;
        assert(r@ =~= curl_escape(chars@.take(i as int)));
    }
    assert(chars@.take(n as int) =~= chars@);
    r
}

/// How curl reads the inside of a double-quoted config value, up to its closing quote: a
/// backslash takes the next character (`t`, `n`, `r`, `v` giving tab, newline, carriage return
/// and vertical tab); an unescaped `"` ends the value, so the read succeeds only if it is the
/// last character of `w`. `w` here is the text after the opening quote.
pub open spec fn curl_read(w: Seq<char>) -> Option<Seq<char>>
    decreases w.len(),
{
    if w.len() == 0 {
        None
    } else if w[0] == '"' {
        if w.len() == 1 { Some(Seq::empty()) } else { None }
    } else if w[0] == '\\' {
        if w.len() < 2 {
            None
        } else {
            let c = w[1];
            let e = if c == 't' { '\t' } else if c == 'n' { '\n' } else if c == 'r' { '\r' }
                else if c == 'v' { '\x0B' } else { c };
            prepend(e, curl_read(w.skip(2)))
        }
    } else {
        prepend(w[0], curl_read(w.drop_first()))
    }
}

proof fn lemma_curl_read_escaped(s: Seq<char>)
    ensures
        curl_read(curl_escape(s) + seq!['"']) == Some(s),
    decreases s.len(),
{
    let w = curl_escape(s) + seq!['"'];
    if s.len() == 0 {
        assert(w =~= seq!['"']);
    } else {
        let t = s.drop_first();
        lemma_curl_read_escaped(t);
        let inner = curl_escape(t) + seq!['"'];
        assert(w =~= curl_escape_char(s[0]) + inner);
        if s[0] == '\\' || s[0] == '"' {
            assert(w.skip(2) =~= inner);
            assert(w[1] == s[0]);
        } else {
            assert(w.drop_first() =~= inner);
        }
        assert(seq![s[0]] + t =~= s);
    }
}

/// Escaping is faithful: curl reads the quoted config value written by `curl_config_quote`
/// back as exactly the original value, and the value ends only at the closing quote.
pub proof fn curl_config_quote_reads_back(value: Seq<char>)
    ensures
        curl_read(curl_escape(value) + seq!['"']) == Some(value),
{
    lemma_curl_read_escaped(value);
}

} // verus!
