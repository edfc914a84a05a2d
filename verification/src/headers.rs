use crate::text::{
    ascii_lower_char, chars_of, eq_ignore_case, eq_ignore_case_range, find_char, first_index, lower,
    push_char, string_of, trim, trim_range,
};
use vstd::prelude::*;

verus! {

/// The longest header name that is accepted, in characters.
pub const MAX_NAME_LEN: usize = 65535;

/// Whether `c` may stand in a header name: an ASCII letter or digit, or one
/// of the marks that HTTP allows in a token.
pub open spec fn is_name_char(c: char) -> bool {
    ('a' <= c <= 'z') || ('A' <= c <= 'Z') || ('0' <= c <= '9') || c == '!' || c == '#' || c == '$'
        || c == '%' || c == '&' || c == '\'' || c == '*' || c == '+' || c == '-' || c == '.' || c
        == '^' || c == '_' || c == '`' || c == '|' || c == '~'
}

/// The header name that `text` stands for: `text` in small letters, where it
/// is a token of 1 to 65535 characters; nothing otherwise.
pub open spec fn header_name(text: Seq<char>) -> Option<Seq<char>> {
    if 1 <= text.len() <= MAX_NAME_LEN && (forall|i: int|
        0 <= i < text.len() ==> is_name_char(#[trigger] text[i])) {
        Some(lower(text))
    } else {
        None
    }
}

/// Whether `b` may stand in a header value: a tab, or any byte from the
/// space upwards but for DEL.
pub open spec fn is_value_byte(b: u8) -> bool {
    (b >= 32 && b != 127) || b == 9
}

/// Whether `value` is acceptable as a header value.
pub open spec fn is_value(value: Seq<u8>) -> bool {
    forall|i: int| 0 <= i < value.len() ==> is_value_byte(#[trigger] value[i])
}

/// Whether `b` is a tab or a printable ASCII character.
pub open spec fn is_visible_byte(b: u8) -> bool {
    (32 <= b < 127) || b == 9
}

/// The text of a header value: its bytes read as characters where all of
/// them are tabs or printable ASCII, nothing otherwise.
pub open spec fn text_of(value: Seq<u8>) -> Option<Seq<char>> {
    if forall|i: int| 0 <= i < value.len() ==> is_visible_byte(#[trigger] value[i]) {
        Some(Seq::new(value.len(), |i: int| value[i] as char))
    } else {
        None
    }
}

/// One header: a name in small letters and a value.
pub struct Header {
    pub name: String,
    pub value: Vec<u8>,
}

impl View for Header {
    type V = (Seq<char>, Seq<u8>);

    open spec fn view(&self) -> (Seq<char>, Seq<u8>) {
        (self.name@, self.value@)
    }
}

/// The views of a sequence of headers.
pub open spec fn views(headers: Seq<Header>) -> Seq<(Seq<char>, Seq<u8>)> {
    Seq::new(headers.len(), |i: int| headers[i]@)
}

/// `headers` without those named `name`.
pub open spec fn without(headers: Seq<(Seq<char>, Seq<u8>)>, name: Seq<char>) -> Seq<
    (Seq<char>, Seq<u8>),
>
    decreases headers.len(),
{
    if headers.len() == 0 {
        Seq::empty()
    } else if headers.last().0 == name {
        without(headers.drop_last(), name)
    } else {
        without(headers.drop_last(), name).push(headers.last())
    }
}

/// The values of the headers named `name`, in order.
pub open spec fn values_of(headers: Seq<(Seq<char>, Seq<u8>)>, name: Seq<char>) -> Seq<Seq<u8>>
    decreases headers.len(),
{
    if headers.len() == 0 {
        Seq::empty()
    } else if headers.last().0 == name {
        values_of(headers.drop_last(), name).push(headers.last().1)
    } else {
        values_of(headers.drop_last(), name)
    }
}

/// Whether some header is named `name`.
pub open spec fn has_header(headers: Seq<(Seq<char>, Seq<u8>)>, name: Seq<char>) -> bool {
    exists|i: int| 0 <= i < headers.len() && (#[trigger] headers[i]).0 == name
}

/// `headers` without those that `text` names; all of them where `text` is no
/// header name.
pub open spec fn removed(headers: Seq<(Seq<char>, Seq<u8>)>, text: Seq<char>) -> Seq<
    (Seq<char>, Seq<u8>),
> {
    match header_name(text) {
        Some(name) => without(headers, name),
        None => headers,
    }
}

/// What a lookup of `text` gives: the value of the first header that `text`
/// names.
pub open spec fn lookup(headers: Seq<(Seq<char>, Seq<u8>)>, text: Seq<char>) -> Option<Seq<u8>> {
    match header_name(text) {
        Some(name) => if values_of(headers, name).len() > 0 {
            Some(values_of(headers, name)[0])
        } else {
            None
        },
        None => None,
    }
}

/// Nothing named `name` is left once it was taken out.
pub proof fn lemma_without_has_none(headers: Seq<(Seq<char>, Seq<u8>)>, name: Seq<char>)
    ensures
        !has_header(without(headers, name), name),
        values_of(without(headers, name), name).len() == 0,
    decreases headers.len(),
{
    if headers.len() > 0 {
        lemma_without_has_none(headers.drop_last(), name);
        let rest = without(headers.drop_last(), name);
        if headers.last().0 != name {
            let grown = rest.push(headers.last());
            assert(grown.drop_last() =~= rest);
            if has_header(grown, name) {
                let i = choose|i: int| 0 <= i < grown.len() && (#[trigger] grown[i]).0 == name;
                assert(rest[i].0 == name);
            }
        }
    }
}

/// Taking out one name leaves what other names had.
pub proof fn lemma_without_keeps_others(
    headers: Seq<(Seq<char>, Seq<u8>)>,
    name: Seq<char>,
    other: Seq<char>,
)
    requires
        name != other,
    ensures
        values_of(without(headers, name), other) == values_of(headers, other),
        has_header(without(headers, name), other) == has_header(headers, other),
    decreases headers.len(),
{
    if headers.len() > 0 {
        let front = headers.drop_last();
        lemma_without_keeps_others(front, name, other);
        let rest = without(front, name);
        if headers.last().0 != name {
            let grown = rest.push(headers.last());
            assert(grown.drop_last() =~= rest);
            if has_header(grown, other) {
                let i = choose|i: int| 0 <= i < grown.len() && (#[trigger] grown[i]).0 == other;
                if i < rest.len() {
                    assert(rest[i].0 == other);
                    let j = choose|j: int| 0 <= j < front.len() && (#[trigger] front[j]).0 == other;
                    assert(headers[j].0 == other);
                } else {
                    assert(headers[headers.len() - 1].0 == other);
                }
            }
            if has_header(headers, other) {
                let i = choose|i: int| 0 <= i < headers.len() && (#[trigger] headers[i]).0 == other;
                if i < front.len() {
                    assert(front[i].0 == other);
                    let j = choose|j: int| 0 <= j < rest.len() && (#[trigger] rest[j]).0 == other;
                    assert(grown[j].0 == other);
                } else {
                    assert(grown[grown.len() - 1].0 == other);
                }
            }
        } else {
            if has_header(headers, other) {
                let i = choose|i: int| 0 <= i < headers.len() && (#[trigger] headers[i]).0 == other;
                assert(front[i].0 == other);
            }
            if has_header(front, other) {
                let i = choose|i: int| 0 <= i < front.len() && (#[trigger] front[i]).0 == other;
                assert(headers[i].0 == other);
            }
        }
    }
}

/// Whether `c` may stand in a header name.
pub fn is_name_char_exec(c: char) -> (r: bool)
    ensures
        r == is_name_char(c),
{
    ('a' <= c && c <= 'z') || ('A' <= c && c <= 'Z') || ('0' <= c && c <= '9') || c == '!' || c
        == '#' || c == '$' || c == '%' || c == '&' || c == '\'' || c == '*' || c == '+' || c == '-'
        || c == '.' || c == '^' || c == '_' || c == '`' || c == '|' || c == '~'
}

/// The header name that `text` stands for, if it is one.
pub fn normalize_name(text: &str) -> (name: Option<String>)
    ensures
        match name {
            Some(n) => header_name(text@) == Some(n@),
            None => header_name(text@) is None,
        },
{
    let chars = chars_of(text);
    if chars.len() < 1 || chars.len() > MAX_NAME_LEN {
        return None;
    }
    let mut out = String::new();
    let mut i: usize = 0;
    while i < chars.len()
        invariant
            chars@ == text@,
            i <= chars@.len(),
            forall|j: int| 0 <= j < i ==> is_name_char(#[trigger] text@[j]),
            out@ == lower(text@).subrange(0, i as int),
        decreases chars@.len() - i,
    {
        if !is_name_char_exec(chars[i]) {
            return None;
        }
        push_char(&mut out, ascii_lower_char(chars[i]));
        i += 1;
        assert(out@ =~= lower(text@).subrange(0, i as int));
    }
    assert(out@ =~= lower(text@));
    Some(out)
}

/// Whether `value` is acceptable as a header value.
pub fn is_value_exec(value: &Vec<u8>) -> (ok: bool)
    ensures
        ok == is_value(value@),
{
    let mut i: usize = 0;
    while i < value.len()
        invariant
            i <= value@.len(),
            forall|j: int| 0 <= j < i ==> is_value_byte(#[trigger] value@[j]),
        decreases value@.len() - i,
    {
        let b: u8 = value[i];
        if !((b >= 32 && b != 127) || b == 9) {
            return false;
        }
        i += 1;
    }
    true
}

/// The text of a header value, where it has one.
pub fn value_text(value: &Vec<u8>) -> (text: Option<Vec<char>>)
    ensures
        match text {
            Some(t) => text_of(value@) == Some(t@),
            None => text_of(value@) is None,
        },
{
    let mut out: Vec<char> = Vec::new();
    let mut i: usize = 0;
    while i < value.len()
        invariant
            i <= value@.len(),
            forall|j: int| 0 <= j < i ==> is_visible_byte(#[trigger] value@[j]),
            out@ == Seq::new(i as nat, |j: int| value@[j] as char),
        decreases value@.len() - i,
    {
        let b: u8 = value[i];
        if !((32 <= b && b < 127) || b == 9) {
            return None;
        }
        out.push(b as char);
        i += 1;
        assert(out@ =~= Seq::new(i as nat, |j: int| value@[j] as char));
    }
    Some(out)
}

/// The token `t` as a list: one item, or none where `t` is empty.
pub open spec fn keep(t: Seq<char>) -> Seq<Seq<char>> {
    if t.len() > 0 {
        seq![t]
    } else {
        Seq::empty()
    }
}

/// The tokens of a comma-separated list: the pieces between the commas,
/// each without the whitespace around it, the empty ones left out.
pub open spec fn split_tokens(s: Seq<char>) -> Seq<Seq<char>>
    decreases s.len(),
{
    let i = first_index(s, ',');
    if 0 <= i < s.len() {
        keep(trim(s.subrange(0, i))) + split_tokens(s.subrange(i + 1, s.len() as int))
    } else {
        keep(trim(s))
    }
}

/// The tokens of one header value. A value that is not text has none.
pub open spec fn tokens_of(value: Seq<u8>) -> Seq<Seq<char>> {
    match text_of(value) {
        Some(text) => split_tokens(text),
        None => Seq::empty(),
    }
}

/// The tokens of all headers named `name`, in order.
pub open spec fn all_tokens(headers: Seq<(Seq<char>, Seq<u8>)>, name: Seq<char>) -> Seq<Seq<char>>
    decreases headers.len(),
{
    if headers.len() == 0 {
        Seq::empty()
    } else if headers.last().0 == name {
        all_tokens(headers.drop_last(), name) + tokens_of(headers.last().1)
    } else {
        all_tokens(headers.drop_last(), name)
    }
}

/// Whether one of `tokens` is `word`, the case of ASCII letters apart.
pub open spec fn has_token(tokens: Seq<Seq<char>>, word: Seq<char>) -> bool {
    exists|i: int| 0 <= i < tokens.len() && eq_ignore_case(#[trigger] tokens[i], word)
}

/// Whether the headers ask for a connection upgrade: one of the `connection`
/// headers lists the option `upgrade`.
pub open spec fn is_upgrade(headers: Seq<(Seq<char>, Seq<u8>)>) -> bool {
    has_token(all_tokens(headers, "connection"@), "upgrade"@)
}

/// `headers` without those that one of `options` names.
pub open spec fn remove_each(headers: Seq<(Seq<char>, Seq<u8>)>, options: Seq<Seq<char>>) -> Seq<
    (Seq<char>, Seq<u8>),
>
    decreases options.len(),
{
    if options.len() == 0 {
        headers
    } else {
        removed(remove_each(headers, options.drop_last()), options.last())
    }
}

/// `headers` without the hop-by-hop headers: those that the `connection`
/// headers list as options, and `connection`, `proxy-connection`,
/// `keep-alive`, `te`, `transfer-encoding` and `upgrade` themselves.
pub open spec fn strip_hop_by_hop(headers: Seq<(Seq<char>, Seq<u8>)>) -> Seq<(Seq<char>, Seq<u8>)> {
    let listed = remove_each(headers, all_tokens(headers, "connection"@));
    without(
        without(
            without(
                without(without(without(listed, "connection"@), "proxy-connection"@), "keep-alive"@),
                "te"@,
            ),
            "transfer-encoding"@,
        ),
        "upgrade"@,
    )
}

/// Taking a name out of headers that do not have it takes nothing else out either:
/// once gone, a name stays gone.
pub proof fn lemma_without_stays_gone(
    headers: Seq<(Seq<char>, Seq<u8>)>,
    name: Seq<char>,
    gone: Seq<char>,
)
    requires
        !has_header(headers, gone),
    ensures
        !has_header(without(headers, name), gone),
    decreases headers.len(),
{
    if headers.len() > 0 {
        let front = headers.drop_last();
        if has_header(front, gone) {
            let i = choose|i: int| 0 <= i < front.len() && (#[trigger] front[i]).0 == gone;
            assert(headers[i].0 == gone);
        }
        lemma_without_stays_gone(front, name, gone);
        let rest = without(front, name);
        if headers.last().0 != name {
            let grown = rest.push(headers.last());
            if has_header(grown, gone) {
                let i = choose|i: int| 0 <= i < grown.len() && (#[trigger] grown[i]).0 == gone;
                if i < rest.len() {
                    assert(rest[i].0 == gone);
                } else {
                    assert(headers[headers.len() - 1].0 == gone);
                }
            }
        }
    }
}

/// None of the six hop-by-hop headers is left after stripping.
pub proof fn law_hop_by_hop_stripped(headers: Seq<(Seq<char>, Seq<u8>)>)
    ensures
        !has_header(strip_hop_by_hop(headers), "connection"@),
        !has_header(strip_hop_by_hop(headers), "proxy-connection"@),
        !has_header(strip_hop_by_hop(headers), "keep-alive"@),
        !has_header(strip_hop_by_hop(headers), "te"@),
        !has_header(strip_hop_by_hop(headers), "transfer-encoding"@),
        !has_header(strip_hop_by_hop(headers), "upgrade"@),
{
    let h0 = remove_each(headers, all_tokens(headers, "connection"@));
    let h1 = without(h0, "connection"@);
    let h2 = without(h1, "proxy-connection"@);
    let h3 = without(h2, "keep-alive"@);
    let h4 = without(h3, "te"@);
    let h5 = without(h4, "transfer-encoding"@);
    let h6 = without(h5, "upgrade"@);
    lemma_without_has_none(h0, "connection"@);
    lemma_without_has_none(h1, "proxy-connection"@);
    lemma_without_has_none(h2, "keep-alive"@);
    lemma_without_has_none(h3, "te"@);
    lemma_without_has_none(h4, "transfer-encoding"@);
    lemma_without_has_none(h5, "upgrade"@);
    lemma_without_stays_gone(h1, "proxy-connection"@, "connection"@);
    lemma_without_stays_gone(h2, "keep-alive"@, "connection"@);
    lemma_without_stays_gone(h3, "te"@, "connection"@);
    lemma_without_stays_gone(h4, "transfer-encoding"@, "connection"@);
    lemma_without_stays_gone(h5, "upgrade"@, "connection"@);
    lemma_without_stays_gone(h2, "keep-alive"@, "proxy-connection"@);
    lemma_without_stays_gone(h3, "te"@, "proxy-connection"@);
    lemma_without_stays_gone(h4, "transfer-encoding"@, "proxy-connection"@);
    lemma_without_stays_gone(h5, "upgrade"@, "proxy-connection"@);
    lemma_without_stays_gone(h3, "te"@, "keep-alive"@);
    lemma_without_stays_gone(h4, "transfer-encoding"@, "keep-alive"@);
    lemma_without_stays_gone(h5, "upgrade"@, "keep-alive"@);
    lemma_without_stays_gone(h4, "transfer-encoding"@, "te"@);
    lemma_without_stays_gone(h5, "upgrade"@, "te"@);
    lemma_without_stays_gone(h5, "upgrade"@, "transfer-encoding"@);
}

/// Whether one of `options` names the header `name`.
pub open spec fn named_by(options: Seq<Seq<char>>, name: Seq<char>) -> bool {
    exists|i: int| 0 <= i < options.len() && header_name(#[trigger] options[i]) == Some(name)
}

/// Taking out the headers that options name leaves what other names had.
pub proof fn lemma_remove_each_keeps_others(
    headers: Seq<(Seq<char>, Seq<u8>)>,
    options: Seq<Seq<char>>,
    name: Seq<char>,
)
    requires
        !named_by(options, name),
    ensures
        values_of(remove_each(headers, options), name) == values_of(headers, name),
    decreases options.len(),
{
    if options.len() > 0 {
        let front = options.drop_last();
        if named_by(front, name) {
            let i = choose|i: int|
                0 <= i < front.len() && header_name(#[trigger] front[i]) == Some(name);
            assert(options[i] == front[i]);
        }
        lemma_remove_each_keeps_others(headers, front, name);
        assert(options[options.len() - 1] == options.last());
        match header_name(options.last()) {
            Some(n) => {
                lemma_without_keeps_others(remove_each(headers, front), n, name);
            },
            None => {},
        }
    }
}

/// Stripping takes out nothing else: a header that is none of the six
/// hop-by-hop headers and that no `connection` header lists keeps all its
/// values, in order.
pub proof fn law_strip_keeps_other_headers(headers: Seq<(Seq<char>, Seq<u8>)>, name: Seq<char>)
    requires
        name != "connection"@,
        name != "proxy-connection"@,
        name != "keep-alive"@,
        name != "te"@,
        name != "transfer-encoding"@,
        name != "upgrade"@,
        !named_by(all_tokens(headers, "connection"@), name),
    ensures
        values_of(strip_hop_by_hop(headers), name) == values_of(headers, name),
{
    let h0 = remove_each(headers, all_tokens(headers, "connection"@));
    let h1 = without(h0, "connection"@);
    let h2 = without(h1, "proxy-connection"@);
    let h3 = without(h2, "keep-alive"@);
    let h4 = without(h3, "te"@);
    let h5 = without(h4, "transfer-encoding"@);
    lemma_remove_each_keeps_others(headers, all_tokens(headers, "connection"@), name);
    lemma_without_keeps_others(h0, "connection"@, name);
    lemma_without_keeps_others(h1, "proxy-connection"@, name);
    lemma_without_keeps_others(h2, "keep-alive"@, name);
    lemma_without_keeps_others(h3, "te"@, name);
    lemma_without_keeps_others(h4, "transfer-encoding"@, name);
    lemma_without_keeps_others(h5, "upgrade"@, name);
}

/// Appends the tokens of the comma-separated list `chars` to `out`.
pub fn split_into(chars: &Vec<char>, out: &mut Vec<String>)
    ensures
        final(out).deep_view() == old(out).deep_view() + split_tokens(chars@),
{
    let n = chars.len();
    let mut start: usize = 0;
    let mut done = false;
    assert(chars@.subrange(0, n as int) =~= chars@);
    assert(out.deep_view() =~= old(out).deep_view());
    while !done
        invariant
            n == chars@.len(),
            start <= n,
            !done ==> out.deep_view() + split_tokens(chars@.subrange(start as int, n as int)) == old(
                out,
            ).deep_view() + split_tokens(chars@),
            done ==> out.deep_view() == old(out).deep_view() + split_tokens(chars@),
        decreases n - start + (if done { 0int } else { 1int }),
    {
        let ghost rest = chars@.subrange(start as int, n as int);
        let ghost before = out.deep_view();
        let at = find_char(chars, start, n, ',');
        let (a, b) = trim_range(chars, start, at);
        let ghost token = chars@.subrange(a as int, b as int);
        if b > a {
            let piece = string_of(chars, a, b);
            out.push(piece);
            assert(out.deep_view() =~= before + keep(token));
        } else {
            assert(out.deep_view() =~= before + keep(token));
        }
        if at < n {
            proof {
                assert(rest.subrange(0, at - start) =~= chars@.subrange(start as int, at as int));
                assert(rest.subrange(at - start + 1, rest.len() as int) =~= chars@.subrange(
                    at as int + 1,
                    n as int,
                ));
                assert(before + keep(token) + split_tokens(
                    chars@.subrange(at as int + 1, n as int),
                ) =~= before + (keep(token) + split_tokens(
                    chars@.subrange(at as int + 1, n as int),
                )));
            }
            start = at + 1;
        } else {
            proof {
                assert(chars@.subrange(start as int, at as int) =~= rest);
            }
            done = true;
        }
    }
}

/// A list of headers, in the order in which they were added. A name may
/// occur several times.
pub struct HeaderMap {
    entries: Vec<Header>,
}

impl View for HeaderMap {
    type V = Seq<(Seq<char>, Seq<u8>)>;

    closed spec fn view(&self) -> Seq<(Seq<char>, Seq<u8>)> {
        views(self.entries@)
    }
}

/// A copy of `bytes`.
pub fn copy_bytes(bytes: &Vec<u8>) -> (out: Vec<u8>)
    ensures
        out@ == bytes@,
{
    let mut out: Vec<u8> = Vec::new();
    let mut i: usize = 0;
    while i < bytes.len()
        invariant
            i <= bytes@.len(),
            out@ == bytes@.subrange(0, i as int),
        decreases bytes@.len() - i,
    {
        out.push(bytes[i]);
        i += 1;
        assert(out@ =~= bytes@.subrange(0, i as int));
    }
    assert(out@ =~= bytes@);
    out
}

impl HeaderMap {
    /// No headers.
    pub fn new() -> (map: Self)
        ensures
            map@ == Seq::<(Seq<char>, Seq<u8>)>::empty(),
    {
        let map = HeaderMap { entries: Vec::new() };
        assert(map@ =~= Seq::<(Seq<char>, Seq<u8>)>::empty());
        map
    }

    /// The number of headers.
    pub fn len(&self) -> (n: usize)
        ensures
            n == self@.len(),
    {
        self.entries.len()
    }

    /// The name of the header at place `i`.
    pub fn name_at(&self, i: usize) -> (name: &str)
        requires
            i < self@.len(),
        ensures
            name@ == self@[i as int].0,
    {
        self.entries[i].name.as_str()
    }

    /// The value of the header at place `i`.
    pub fn value_at(&self, i: usize) -> (value: &Vec<u8>)
        requires
            i < self@.len(),
        ensures
            value@ == self@[i as int].1,
    {
        &self.entries[i].value
    }

    /// A copy of these headers.
    pub fn duplicate(&self) -> (copy: Self)
        ensures
            copy@ == self@,
    {
        let mut entries: Vec<Header> = Vec::new();
        let mut i: usize = 0;
        while i < self.entries.len()
            invariant
                i <= self.entries@.len(),
                entries@.len() == i,
                views(entries@) == views(self.entries@).subrange(0, i as int),
            decreases self.entries@.len() - i,
        {
            let header = Header {
                name: self.entries[i].name.clone(),
                value: copy_bytes(&self.entries[i].value),
            };
            let ghost before = entries@;
            assert(header@ == self.entries@[i as int]@);
            entries.push(header);
            i += 1;
            assert forall|j: int| 0 <= j < i implies views(entries@)[j] == views(
                self.entries@,
            ).subrange(0, i as int)[j] by {
                if j < i - 1 {
                    assert(views(before)[j] == views(self.entries@).subrange(0, i - 1)[j]);
                }
            }
            assert(views(entries@) =~= views(self.entries@).subrange(0, i as int));
        }
        assert(views(entries@) =~= views(self.entries@));
        HeaderMap { entries }
    }

    /// Adds a header behind those that are there.
    ///
    /// The header is refused, and nothing changes, where `name` is no header
    /// name or `value` no header value.
    pub fn append(&mut self, name: &str, value: Vec<u8>) -> (accepted: bool)
        ensures
            accepted == (header_name(name@) is Some && is_value(value@)),
            accepted ==> final(self)@ == old(self)@.push((header_name(name@)->0, value@)),
            !accepted ==> final(self)@ == old(self)@,
    {
        if !is_value_exec(&value) {
            return false;
        }
        match normalize_name(name) {
            Some(normal) => {
                self.entries.push(Header { name: normal, value });
                assert(self@ =~= old(self)@.push((header_name(name@)->0, value@)));
                true
            },
            None => false,
        }
    }

    /// Adds a header with exactly the name `name` behind those that are there.
    pub fn push_named(&mut self, name: &str, value: Vec<u8>)
        ensures
            final(self)@ == old(self)@.push((name@, value@)),
    {
        self.entries.push(Header { name: name.to_owned(), value });
        assert(self@ =~= old(self)@.push((name@, value@)));
    }

    /// Takes out every header with exactly the name `name`.
    pub fn remove_named(&mut self, name: &str)
        ensures
            final(self)@ == without(old(self)@, name@),
    {
        let wanted = name.to_owned();
        let mut kept: Vec<Header> = Vec::new();
        let ghost all = self@;
        assert(views(kept@) =~= without(all.subrange(0, 0), name@));
        let mut i: usize = 0;
        while i < self.entries.len()
            invariant
                wanted@ == name@,
                all == self@,
                i <= self.entries@.len(),
                views(kept@) == without(all.subrange(0, i as int), name@),
            decreases self.entries@.len() - i,
        {
            proof {
                assert(all.subrange(0, i as int + 1).drop_last() =~= all.subrange(0, i as int));
            }
            if !(self.entries[i].name == wanted) {
                let header = Header {
                    name: self.entries[i].name.clone(),
                    value: copy_bytes(&self.entries[i].value),
                };
                kept.push(header);
                assert(views(kept@) =~= without(all.subrange(0, i as int), name@).push(
                    all[i as int],
                ));
            }
            i += 1;
        }
        assert(all.subrange(0, i as int) =~= all);
        self.entries = kept;
    }

    /// Puts a header with exactly the name `name` in the place of all that
    /// have this name.
    pub fn insert_named(&mut self, name: &str, value: Vec<u8>)
        ensures
            final(self)@ == without(old(self)@, name@).push((name@, value@)),
    {
        self.remove_named(name);
        self.push_named(name, value);
    }

    /// Takes out every header that `name` names. Where `name` is no header
    /// name, nothing changes.
    pub fn remove(&mut self, name: &str)
        ensures
            final(self)@ == removed(old(self)@, name@),
    {
        match normalize_name(name) {
            Some(name) => self.remove_named(name.as_str()),
            None => {},
        }
    }

    /// Puts a header in the place of all that have its name.
    ///
    /// The header is refused, and nothing changes, where `name` is no header
    /// name or `value` no header value.
    pub fn insert(&mut self, name: &str, value: Vec<u8>) -> (accepted: bool)
        ensures
            accepted == (header_name(name@) is Some && is_value(value@)),
            accepted ==> final(self)@ == without(old(self)@, header_name(name@)->0).push(
                (header_name(name@)->0, value@),
            ),
            !accepted ==> final(self)@ == old(self)@,
    {
        if !is_value_exec(&value) {
            return false;
        }
        match normalize_name(name) {
            Some(normal) => {
                self.remove_named(normal.as_str());
                let ghost middle = self@;
                self.entries.push(Header { name: normal, value });
                assert(self@ =~= middle.push((header_name(name@)->0, value@)));
                true
            },
            None => false,
        }
    }

    /// The value of the first header with exactly the name `name`.
    pub fn get_named(&self, name: &str) -> (value: Option<&Vec<u8>>)
        ensures
            match value {
                Some(v) => values_of(self@, name@).len() > 0 && v@ == values_of(self@, name@)[0],
                None => values_of(self@, name@).len() == 0,
            },
    {
        let wanted = name.to_owned();
        let ghost all = self@;
        let mut i: usize = 0;
        while i < self.entries.len()
            invariant
                wanted@ == name@,
                all == self@,
                i <= self.entries@.len(),
                forall|j: int| 0 <= j < i ==> (#[trigger] all[j]).0 != name@,
            decreases self.entries@.len() - i,
        {
            if self.entries[i].name == wanted {
                proof {
                    lemma_first_value(all, name@, i as int);
                }
                return Some(&self.entries[i].value);
            }
            i += 1;
        }
        proof {
            lemma_no_value(all, name@);
        }
        None
    }

    /// The value of the first header that `name` names.
    pub fn get(&self, name: &str) -> (value: Option<&Vec<u8>>)
        ensures
            match value {
                Some(v) => lookup(self@, name@) == Some(v@),
                None => lookup(self@, name@) is None,
            },
    {
        match normalize_name(name) {
            Some(name) => self.get_named(name.as_str()),
            None => None,
        }
    }

    /// The tokens of the headers with exactly the name `name`, each header
    /// read as a comma-separated list.
    pub fn get_all_tokens(&self, name: &str) -> (tokens: Vec<String>)
        ensures
            tokens.deep_view() == all_tokens(self@, name@),
    {
        let wanted = name.to_owned();
        let ghost all = self@;
        let mut tokens: Vec<String> = Vec::new();
        let mut i: usize = 0;
        assert(tokens.deep_view() =~= all_tokens(all.subrange(0, 0), name@));
        while i < self.entries.len()
            invariant
                wanted@ == name@,
                all == self@,
                i <= self.entries@.len(),
                tokens.deep_view() == all_tokens(all.subrange(0, i as int), name@),
            decreases self.entries@.len() - i,
        {
            proof {
                assert(all.subrange(0, i as int + 1).drop_last() =~= all.subrange(0, i as int));
            }
            if self.entries[i].name == wanted {
                match value_text(&self.entries[i].value) {
                    Some(text) => {
                        split_into(&text, &mut tokens);
                    },
                    None => {
                        assert(tokens.deep_view() + Seq::<Seq<char>>::empty()
                            =~= tokens.deep_view());
                    },
                }
            }
            i += 1;
        }
        assert(all.subrange(0, i as int) =~= all);
        tokens
    }

    /// Whether the headers ask for a connection upgrade.
    pub fn is_connection_upgrade(&self) -> (upgrade: bool)
        ensures
            upgrade == is_upgrade(self@),
    {
        let tokens = self.get_all_tokens("connection");
        contains_token(&tokens, "upgrade")
    }

    /// Takes out the hop-by-hop headers.
    pub fn remove_hop_by_hop_headers(&mut self)
        ensures
            final(self)@ == strip_hop_by_hop(old(self)@),
    {
        let options = self.get_all_tokens("connection");
        let ghost listed = options.deep_view();
        let mut i: usize = 0;
        assert(listed.subrange(0, 0) =~= Seq::<Seq<char>>::empty());
        while i < options.len()
            invariant
                listed == options.deep_view(),
                i <= options@.len(),
                self@ == remove_each(old(self)@, listed.subrange(0, i as int)),
            decreases options@.len() - i,
        {
            proof {
                assert(listed.subrange(0, i as int + 1).drop_last() =~= listed.subrange(
                    0,
                    i as int,
                ));
                assert(listed.subrange(0, i as int + 1).last() == options@[i as int]@);
            }
            self.remove(options[i].as_str());
            i += 1;
        }
        assert(listed.subrange(0, i as int) =~= listed);
        self.remove_named("connection");
        self.remove_named("proxy-connection");
        self.remove_named("keep-alive");
        self.remove_named("te");
        self.remove_named("transfer-encoding");
        self.remove_named("upgrade");
    }
}

/// Whether one of `tokens` is `word`, the case of ASCII letters apart.
pub fn contains_token(tokens: &Vec<String>, word: &str) -> (found: bool)
    ensures
        found == has_token(tokens.deep_view(), word@),
{
    let mut i: usize = 0;
    while i < tokens.len()
        invariant
            i <= tokens@.len(),
            forall|j: int| 0 <= j < i ==> !eq_ignore_case(#[trigger] tokens.deep_view()[j], word@),
        decreases tokens@.len() - i,
    {
        let chars = chars_of(tokens[i].as_str());
        assert(chars@.subrange(0, chars@.len() as int) =~= chars@);
        assert(tokens.deep_view()[i as int] == tokens@[i as int]@);
        if eq_ignore_case_range(&chars, 0, chars.len(), word) {
            return true;
        }
        i += 1;
    }
    false
}

/// The first header named `name` gives the first of the values of that name.
pub proof fn lemma_first_value(headers: Seq<(Seq<char>, Seq<u8>)>, name: Seq<char>, i: int)
    requires
        0 <= i < headers.len(),
        headers[i].0 == name,
        forall|j: int| 0 <= j < i ==> (#[trigger] headers[j]).0 != name,
    ensures
        values_of(headers, name).len() > 0,
        values_of(headers, name)[0] == headers[i].1,
    decreases headers.len(),
{
    let front = headers.drop_last();
    if i == headers.len() - 1 {
        assert forall|j: int| 0 <= j < front.len() implies (#[trigger] front[j]).0 != name by {
            assert(front[j] == headers[j]);
        }
        lemma_no_value(front, name);
    } else {
        assert(front[i] == headers[i]);
        assert forall|j: int| 0 <= j < i implies (#[trigger] front[j]).0 != name by {
            assert(front[j] == headers[j]);
        }
        lemma_first_value(front, name, i);
    }
}

/// Where no header is named `name`, that name has no values.
pub proof fn lemma_no_value(headers: Seq<(Seq<char>, Seq<u8>)>, name: Seq<char>)
    requires
        forall|j: int| 0 <= j < headers.len() ==> (#[trigger] headers[j]).0 != name,
    ensures
        values_of(headers, name).len() == 0,
        all_tokens(headers, name).len() == 0,
    decreases headers.len(),
{
    if headers.len() > 0 {
        let front = headers.drop_last();
        assert forall|j: int| 0 <= j < front.len() implies (#[trigger] front[j]).0 != name by {
            assert(front[j] == headers[j]);
        }
        lemma_no_value(front, name);
        assert(headers[headers.len() - 1].0 != name);
    }
}

} // verus!
