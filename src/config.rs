//! Connection settings from the text of a properties file.

use vstd::prelude::*;

use crate::error::MetaError;
use crate::format::{hex_digit, hex_digits};

verus! {

/// The lines of `s`, split at each line feed; the last line runs to the
/// end of the text.
pub open spec fn split_lines(s: Seq<char>) -> Seq<Seq<char>>
    decreases s.len(),
{
    if s.len() == 0 {
        seq![Seq::empty()]
    } else {
        let prev = split_lines(s.drop_last());
        if s.last() == '\n' {
            prev.push(Seq::empty())
        } else {
            prev.update(prev.len() - 1, prev.last().push(s.last()))
        }
    }
}

/// The index of the first '=' of `l` at or after `i`, or -1.
pub open spec fn find_eq(l: Seq<char>, i: int) -> int
    decreases l.len() - i,
{
    if i < 0 || i >= l.len() {
        -1
    } else if l[i] == '=' {
        i
    } else {
        find_eq(l, i + 1)
    }
}

/// The key of a property line: the text up to and including its first
/// '='; a line without '=' holds no property.
pub open spec fn line_key(l: Seq<char>) -> Option<Seq<char>> {
    let k = find_eq(l, 0);
    if k < 0 {
        None
    } else {
        Some(l.subrange(0, k + 1))
    }
}

/// The value of a property line: the text after its first '='.
pub open spec fn line_value(l: Seq<char>) -> Seq<char> {
    l.subrange(find_eq(l, 0) + 1, l.len() as int)
}

/// The value of property `key` among `lines`: that of the last line with
/// this key.
pub open spec fn property_of(lines: Seq<Seq<char>>, key: Seq<char>) -> Option<Seq<char>>
    decreases lines.len(),
{
    if lines.len() == 0 {
        None
    } else if line_key(lines.last()) == Some(key) {
        Some(line_value(lines.last()))
    } else {
        property_of(lines.drop_last(), key)
    }
}

proof fn lemma_split_lines_nonempty(s: Seq<char>)
    ensures
        split_lines(s).len() >= 1,
    decreases s.len(),
{
    if s.len() > 0 {
        lemma_split_lines_nonempty(s.drop_last());
    }
}

/// The value of `line` under `key`, where the line's key is `key`.
fn line_property(line: &str, key: &str) -> (r: Option<String>)
    ensures
        r is Some <==> line_key(line@) == Some(key@),
        r matches Some(v) ==> v@ == line_value(line@),
{
    let n = line.unicode_len();
    let mut i: usize = 0;
    while i < n
        invariant
            n == line@.len(),
            i <= n,
            find_eq(line@, 0) == find_eq(line@, i as int),
        decreases n - i,
    {
        if line.get_char(i) == '=' {
            let k = String::from_str(line.substring_char(0, i + 1));
            if k == String::from_str(key) {
                return Some(String::from_str(line.substring_char(i + 1, n)));
            } else {
                return None;
            }
        }
        i = i + 1;
    }
    None
}

/// The text of an optional string.
pub open spec fn opt_view(o: Option<String>) -> Option<Seq<char>> {
    match o {
        Some(v) => Some(v@),
        None => None,
    }
}

/// The value of property `key` (which ends in '=') in the text of a
/// properties file: the rest of the last line whose text up to its first
/// '=' is `key`.
pub fn property_value(text: &str, key: &str) -> (r: Option<String>)
    ensures
        opt_view(r) == property_of(split_lines(text@), key@),
{
    let n = text.unicode_len();
    let mut start: usize = 0;
    let mut i: usize = 0;
    let mut found: Option<String> = None;
    let ghost mut done: Seq<Seq<char>> = Seq::empty();
    assert(text@.subrange(0, 0) =~= Seq::<char>::empty());
    assert(text@.subrange(0, 0) =~= text@.subrange(0, 0));
    while i < n
        invariant
            n == text@.len(),
            start <= i <= n,
            split_lines(text@.subrange(0, i as int)) == done.push(text@.subrange(start as int, i as int)),
            opt_view(found) == property_of(done, key@),
        decreases n - i,
    {
        let c = text.get_char(i);
        let ghost prefix = text@.subrange(0, i + 1);
        assert(prefix.drop_last() =~= text@.subrange(0, i as int));
        assert(prefix.last() == c);
        if c == '\n' {
            let line = text.substring_char(start, i);
            let ghost old_done = done;
            match line_property(line, key) {
                Some(v) => {
                    found = Some(v);
                },
                None => {},
            }
            proof {
                done = done.push(line@);
                assert(done.drop_last() =~= old_done);
                assert(text@.subrange(i + 1, i + 1) =~= Seq::<char>::empty());
            }
            start = i + 1;
        } else {
            proof {
                lemma_split_lines_nonempty(text@.subrange(0, i as int));
                assert(text@.subrange(start as int, i + 1) =~= text@.subrange(start as int, i as int).push(c));
                assert(split_lines(prefix) =~= done.push(text@.subrange(start as int, i + 1)));
            }
        }
        i = i + 1;
    }
    let last = text.substring_char(start, n);
    assert(text@.subrange(0, n as int) =~= text@);
    let ghost all = done.push(last@);
    assert(all.drop_last() =~= done);
    match line_property(last, key) {
        Some(v) => Some(v),
        None => found,
    }
}

/// The property that holds the store's JDBC URL.
pub const PG_URL_KEY: &'static str = "lakesoul.pg.url=";

/// The property that holds the store's user name.
pub const PG_USERNAME_KEY: &'static str = "lakesoul.pg.username=";

/// The property that holds the store's password.
pub const PG_PASSWORD_KEY: &'static str = "lakesoul.pg.password=";

/// The JDBC URL used where the properties name none.
pub const DEFAULT_PG_URL: &'static str =
    "jdbc:postgresql://127.0.0.1:5432/lakesoul_test?stringtype=unspecified";

/// The user name and password used where the properties name none.
pub const DEFAULT_PG_CREDENTIAL: &'static str = "lakesoul_test";

/// The connection settings used where no properties file is given.
pub const DEFAULT_PG_CONFIG: &'static str =
    "host=127.0.0.1 port=5432 dbname=lakesoul_test user=lakesoul_test password=lakesoul_test";

/// What a URL holds once parsed: its host, its explicit port and its
/// first path segment; `None` where the text is not a URL.
pub uninterp spec fn url_fields(s: Seq<char>) -> Option<(Option<Seq<char>>, Option<u16>, Option<Seq<char>>)>;

/// Relies on `url::Url::parse`, then reads the parsed URL's `host_str`,
/// `port` and the first item of `path_segments`.
#[verifier::external_body]
fn parse_url(s: &str) -> (r: Option<(Option<String>, Option<u16>, Option<String>)>)
    ensures
        match r {
            Some((h, p, d)) => url_fields(s@) == Some((opt_view(h), p, opt_view(d))),
            None => url_fields(s@) is None,
        },
{
    match url::Url::parse(s) {
        Ok(u) => Some((
            u.host_str().map(|h| h.to_string()),
            u.port(),
            u.path_segments().and_then(|mut p| p.next()).map(|p| p.to_string()),
        )),
        Err(_) => None,
    }
}

/// `n` in decimal digits.
pub open spec fn decimal(n: nat) -> Seq<char>
    decreases n,
{
    if n < 10 {
        seq![hex_digits()[n as int]]
    } else {
        decimal(n / 10) + seq![hex_digits()[(n % 10) as int]]
    }
}

/// Appends `n` in decimal digits.
fn push_decimal(out: &mut String, n: u64)
    ensures
        final(out)@ == old(out)@ + decimal(n as nat),
    decreases n,
{
    if n >= 10 {
        push_decimal(out, n / 10);
    }
    out.append(hex_digit(n % 10));
    if n >= 10 {
        assert(final(out)@ =~= old(out)@ + decimal(n as nat));
    } else {
        assert(final(out)@ =~= old(out)@ + decimal(n as nat));
    }
}

/// A value, or a default where there is none.
pub open spec fn or_default(o: Option<Seq<char>>, d: Seq<char>) -> Seq<char> {
    match o {
        Some(v) => v,
        None => d,
    }
}

/// The connection settings that a properties file gives: host, port and
/// database from its JDBC URL (after the five characters of "jdbc:"), user
/// name and password from their properties, each with its default; `None`
/// where the URL is too short, does not parse, or lacks a host, an
/// explicit port or a path segment.
pub open spec fn pg_config_of(text: Seq<char>) -> Option<Seq<char>> {
    let lines = split_lines(text);
    let url = or_default(property_of(lines, PG_URL_KEY@), DEFAULT_PG_URL@);
    let user = or_default(property_of(lines, PG_USERNAME_KEY@), DEFAULT_PG_CREDENTIAL@);
    let password = or_default(property_of(lines, PG_PASSWORD_KEY@), DEFAULT_PG_CREDENTIAL@);
    if url.len() < 5 {
        None
    } else {
        match url_fields(url.subrange(5, url.len() as int)) {
            Some((Some(host), Some(port), Some(db))) => Some(
                "host="@ + host + " port="@ + decimal(port as nat) + " dbname="@ + db + " user="@
                    + user + " password="@ + password,
            ),
            _ => None,
        }
    }
}

/// A property's value, or `default` where the properties hold none.
fn property_or(text: &str, key: &str, default: &str) -> (r: String)
    ensures
        r@ == or_default(property_of(split_lines(text@), key@), default@),
{
    match property_value(text, key) {
        Some(v) => v,
        None => String::from_str(default),
    }
}

/// Builds the connection settings from the text of a properties file; a
/// URL that does not give a host, an explicit port and a database is a
/// decode error.
pub fn pg_config_from_properties(text: &str) -> (r: Result<String, MetaError>)
    ensures
        r is Ok <==> pg_config_of(text@) is Some,
        r matches Ok(c) ==> c@ == pg_config_of(text@)->0,
        r is Err ==> r matches Err(MetaError::Decode(_)),
{
    let url = property_or(text, PG_URL_KEY, DEFAULT_PG_URL);
    let user = property_or(text, PG_USERNAME_KEY, DEFAULT_PG_CREDENTIAL);
    let password = property_or(text, PG_PASSWORD_KEY, DEFAULT_PG_CREDENTIAL);
    let n = url.as_str().unicode_len();
    if n < 5 {
        return Err(MetaError::Decode(String::from_str("store URL too short")));
    }
    let rest = url.as_str().substring_char(5, n);
    match parse_url(rest) {
        Some((Some(host), Some(port), Some(db))) => {
            let mut r = String::from_str("host=");
            r.append(host.as_str());
            r.append(" port=");
            push_decimal(&mut r, port as u64);
            r.append(" dbname=");
            r.append(db.as_str());
            r.append(" user=");
            r.append(user.as_str());
            r.append(" password=");
            r.append(password.as_str());
            Ok(r)
        },
        _ => Err(MetaError::Decode(String::from_str("store URL lacks host, port or database"))),
    }
}

} // verus!
