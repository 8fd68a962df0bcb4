//! The URL composer: joins a base URL, a normalized API version segment, and
//! a relative path into one absolute endpoint.
//!
//! The version segment is normalized by removing every `/` and appending
//! exactly one trailing `/`; the path has any leading `/` removed, so an
//! absolute-looking path cannot escape the base-plus-version prefix. Joining
//! itself follows relative-URL semantics and is delegated to the `url` crate
//! behind trusted wrappers; for a well-formed base and plain version and path
//! characters, [`compose`]'s contract pins the endpoint down to the exact
//! character sequence `base + version + "/" + path`.

use vstd::prelude::*;
use crate::errors::PorkbunnError;

verus! {

/// The character sequence of `Some` string, or `None`.
pub open spec fn opt_view(o: Option<String>) -> Option<Seq<char>> {
    match o {
        Some(s) => Some(s@),
        None => None,
    }
}

/// `s` with every `/` removed.
pub open spec fn strip_slashes(s: Seq<char>) -> Seq<char>
    decreases s.len(),
{
    if s.len() == 0 {
        Seq::empty()
    } else {
        strip_slashes(s.drop_last()) + (if s.last() == '/' {
            Seq::<char>::empty()
        } else {
            seq![s.last()]
        })
    }
}

/// The normalized version segment: all `/` removed, one trailing `/` added.
pub open spec fn norm_version(v: Seq<char>) -> Seq<char> {
    strip_slashes(v).push('/')
}

/// `s` with every leading `/` removed.
pub open spec fn strip_leading(s: Seq<char>) -> Seq<char>
    decreases s.len(),
{
    if s.len() == 0 {
        Seq::empty()
    } else if s.first() == '/' {
        strip_leading(s.drop_first())
    } else {
        s
    }
}

/// `c` never occurs in `s`.
pub open spec fn no_char(s: Seq<char>, c: char) -> bool {
    forall|i: int| 0 <= i < s.len() ==> s[i] != c
}

/// `p` is a prefix of `s`.
pub open spec fn starts_with(s: Seq<char>, p: Seq<char>) -> bool {
    p.len() <= s.len() && s.take(p.len() as int) == p
}

/// A character that relative-URL joining passes through into the path
/// unchanged: an ASCII letter or digit, `-`, `_`, `.`, `~`, or the segment
/// separator `/` itself.
pub open spec fn is_plain_rel_char(c: char) -> bool {
    ('a' <= c && c <= 'z') || ('A' <= c && c <= 'Z') || ('0' <= c && c <= '9') || c == '-' || c
        == '_' || c == '.' || c == '~' || c == '/'
}

/// A `.` segment starts at position `i` of `s`.
pub open spec fn dot_seg_at(s: Seq<char>, i: int) -> bool {
    &&& 0 <= i < s.len()
    &&& s[i] == '.'
    &&& (i == 0 || s[i - 1] == '/')
    &&& (i == s.len() - 1 || s[i + 1] == '/')
}

/// A `..` segment starts at position `i` of `s`.
pub open spec fn dotdot_seg_at(s: Seq<char>, i: int) -> bool {
    &&& 0 <= i
    &&& i + 1 < s.len()
    &&& s[i] == '.'
    &&& s[i + 1] == '.'
    &&& (i == 0 || s[i - 1] == '/')
    &&& (i + 1 == s.len() - 1 || s[i + 2] == '/')
}

/// No segment of `s` is `.` or `..`.
pub open spec fn no_dot_segments(s: Seq<char>) -> bool {
    forall|i: int| !dot_seg_at(s, i) && !dotdot_seg_at(s, i)
}

/// A plain relative path reference: only plain characters, no leading `/`,
/// no empty segment (`//`), and no `.` or `..` segment. Joining such a
/// reference onto a `/`-terminated base appends it to the base's path,
/// character for character. The empty reference is allowed and resolves to
/// the base itself.
pub open spec fn plain_rel(s: Seq<char>) -> bool {
    &&& (forall|i: int| 0 <= i < s.len() ==> is_plain_rel_char(s[i]))
    &&& (s.len() > 0 ==> s[0] != '/')
    &&& (forall|i: int| 0 < i < s.len() ==> !(#[trigger] s[i] == '/' && s[i - 1] == '/'))
    &&& no_dot_segments(s)
}

/// A version string whose non-`/` characters are plain and that keeps at
/// least one of them after normalization, and whose normalized segment is
/// not `.` or `..`.
pub open spec fn plain_version(v: Seq<char>) -> bool {
    &&& (forall|i: int| 0 <= i < v.len() ==> is_plain_rel_char(v[i]))
    &&& strip_slashes(v).len() > 0
    &&& strip_slashes(v) != seq!['.']
    &&& strip_slashes(v) != seq!['.', '.']
}

/// What `url::Url::parse` followed by serialization yields for `s`: the
/// normal form of the URL when `s` parses as an absolute URL, `None`
/// otherwise.
pub uninterp spec fn url_normalized(s: Seq<char>) -> Option<Seq<char>>;

/// What parsing `rel` against the absolute URL `base` (relative-URL join)
/// followed by serialization yields: the joined URL, or `None` when the
/// join fails.
pub uninterp spec fn url_join(base: Seq<char>, rel: Seq<char>) -> Option<Seq<char>>;

/// A base ready for appending: an `http`/`https` URL in normal form whose
/// serialization ends with `/` and carries no query or fragment.
pub open spec fn good_base(b: Seq<char>) -> bool {
    &&& url_normalized(b) == Some(b)
    &&& (starts_with(b, "https://"@) || starts_with(b, "http://"@))
    &&& b.len() > 0
    &&& b.last() == '/'
    &&& no_char(b, '?')
    &&& no_char(b, '#')
}

/// Relies on `url::Url::parse` and `url::Url::as_str`: parsing yields the
/// URL whose serialization `as_str` returns, and parsing a serialization
/// returns the same URL, so normalization is idempotent.
#[verifier::external_body]
fn normalize_url(s: &str) -> (r: Option<String>)
    ensures
        opt_view(r) == url_normalized(s@),
        (match r {
            Some(t) => url_normalized(t@) == Some(t@),
            None => url_normalized(s@) is None,
        }),
{
    match url::Url::parse(s) {
        Ok(u) => Some(u.as_str().to_string()),
        Err(_) => None,
    }
}

/// Relies on `url::Url::parse`, `url::Url::join` and `url::Url::as_str`:
/// `join` parses `rel` against the base URL. The result is again a
/// serialization, so it is in normal form. When the base's path ends with
/// `/` and `rel` is a plain relative reference (no scheme or authority
/// introducer, no query, fragment or dot segment, and only characters that
/// the path serializer keeps verbatim), RFC 3986 reference resolution
/// appends `rel` to the base serialization unchanged.
#[verifier::external_body]
fn join_url(base: &str, rel: &str) -> (r: Option<String>)
    ensures
        opt_view(r) == url_join(base@, rel@),
        (match r {
            Some(t) => url_normalized(t@) == Some(t@),
            None => url_join(base@, rel@) is None,
        }),
        (match r {
            Some(t) => (good_base(base@) && plain_rel(rel@)) ==> t@ == base@ + rel@,
            None => !(good_base(base@) && plain_rel(rel@)),
        }),
{
    let b = match url::Url::parse(base) {
        Ok(b) => b,
        Err(_) => return None,
    };
    match b.join(rel) {
        Ok(u) => Some(u.as_str().to_string()),
        Err(_) => None,
    }
}

/// The endpoint that [`compose`] returns: the base in normal form, joined
/// with the normalized version segment, joined with the de-slashed path —
/// or `None` as soon as one step fails.
pub open spec fn compose_spec(base: Seq<char>, version: Seq<char>, path: Seq<char>) -> Option<
    Seq<char>,
> {
    match url_normalized(base) {
        None => None,
        Some(nb) => match url_join(nb, norm_version(version)) {
            None => None,
            Some(j1) => url_join(j1, strip_leading(path)),
        },
    }
}

/// Normalizes a version segment: removes every `/`, appends one `/`.
pub fn normalize_version(v: &str) -> (r: String)
    ensures
        r@ == norm_version(v@),
{
    let len = v.unicode_len();
    let mut out = String::new();
    let mut i: usize = 0;
    while i < len
        invariant
            i <= len,
            len == v@.len(),
            out@ == strip_slashes(v@.take(i as int)),
        decreases len - i,
    {
        let c = v.get_char(i);
        if c != '/' {
            let piece = v.substring_char(i, i + 1);
            out.append(piece);
            proof {
                assert(piece@ =~= seq![c]);
            }
        }
        proof {
            assert(v@.take(i + 1 as int).drop_last() =~= v@.take(i as int));
            assert(v@.take(i + 1 as int).last() == c);
            assert(out@ =~= strip_slashes(v@.take(i + 1 as int)));
        }
        i = i + 1;
    }
    out.append("/");
    proof {
        assert(v@.take(len as int) =~= v@);
        assert(strip_slashes(v@) + "/"@ =~= norm_version(v@)) by {
            reveal_strlit("/");
        }
    }
    out
}

/// Removes every leading `/` from a path.
pub fn strip_leading_slashes(p: &str) -> (r: String)
    ensures
        r@ == strip_leading(p@),
{
    let len = p.unicode_len();
    let mut i: usize = 0;
    proof {
        assert(p@.skip(0) =~= p@);
    }
    while i < len && p.get_char(i) == '/'
        invariant
            i <= len,
            len == p@.len(),
            strip_leading(p@) == strip_leading(p@.skip(i as int)),
        decreases len - i,
    {
        proof {
            assert(p@.skip(i as int).first() == p@[i as int]);
            assert(p@.skip(i as int).drop_first() =~= p@.skip(i + 1 as int));
        }
        i = i + 1;
    }
    let r = p.substring_char(i, len).to_owned();
    proof {
        assert(r@ =~= p@.skip(i as int));
        if i < len {
            assert(p@.skip(i as int).first() == p@[i as int]);
            assert(p@[i as int] != '/');
        } else {
            assert(p@.skip(i as int).len() == 0);
        }
        assert(strip_leading(p@.skip(i as int)) == p@.skip(i as int));
    }
    r
}

/// Every character that `strip_slashes` keeps is a non-`/` character that
/// already occurred in `s`, so any characterwise property of `s` carries
/// over.
pub proof fn lemma_strip_slashes_chars(s: Seq<char>)
    ensures
        strip_slashes(s).len() <= s.len(),
        forall|i: int|
            0 <= i < strip_slashes(s).len() ==> strip_slashes(s)[i] != '/' && (exists|j: int|
                0 <= j < s.len() && s[j] == strip_slashes(s)[i]),
    decreases s.len(),
{
    if s.len() == 0 {
    } else {
        lemma_strip_slashes_chars(s.drop_last());
        let st = strip_slashes(s);
        let sd = strip_slashes(s.drop_last());
        assert forall|i: int| 0 <= i < st.len() implies st[i] != '/' && (exists|j: int|
            0 <= j < s.len() && s[j] == st[i]) by {
            if i < sd.len() {
                assert(st[i] == sd[i]);
                let j = choose|j: int| 0 <= j < s.drop_last().len() && s.drop_last()[j] == sd[i];
                assert(s[j] == sd[i]);
            } else {
                assert(s.last() != '/');
                assert(st[i] == s.last());
                assert(s[s.len() - 1] == st[i]);
            }
        }
    }
}

/// Removing slashes distributes over concatenation.
pub proof fn lemma_strip_slashes_concat(a: Seq<char>, b: Seq<char>)
    ensures
        strip_slashes(a + b) == strip_slashes(a) + strip_slashes(b),
    decreases b.len(),
{
    if b.len() == 0 {
        assert(a + b =~= a);
        assert(strip_slashes(a) + strip_slashes(b) =~= strip_slashes(a));
    } else {
        lemma_strip_slashes_concat(a, b.drop_last());
        assert((a + b).drop_last() =~= a + b.drop_last());
        assert((a + b).last() == b.last());
        assert(strip_slashes(a) + strip_slashes(b) =~= strip_slashes(a + b));
    }
}

/// A sequence without `/` is left unchanged by `strip_slashes`.
pub proof fn lemma_strip_slashes_id(s: Seq<char>)
    requires
        no_char(s, '/'),
    ensures
        strip_slashes(s) == s,
    decreases s.len(),
{
    if s.len() == 0 {
        assert(strip_slashes(s) =~= s);
    } else {
        assert(no_char(s.drop_last(), '/'));
        lemma_strip_slashes_id(s.drop_last());
        assert(s.last() != '/');
        assert(strip_slashes(s) =~= s);
    }
}

/// Law: the version segment normalizes the same with or without
/// surrounding slashes, so `v3`, `/v3` and `v3/` all yield one normalized
/// segment.
pub proof fn lemma_norm_version_ignores_slashes(v: Seq<char>)
    ensures
        norm_version(seq!['/'] + v) == norm_version(v),
        norm_version(v + seq!['/']) == norm_version(v),
        norm_version(norm_version(v)) == norm_version(v),
{
    let slash = seq!['/'];
    assert(strip_slashes(slash) =~= Seq::<char>::empty()) by {
        assert(slash.drop_last() =~= Seq::<char>::empty());
        assert(strip_slashes(Seq::<char>::empty()) =~= Seq::<char>::empty());
    }
    lemma_strip_slashes_concat(slash, v);
    assert(strip_slashes(slash + v) =~= strip_slashes(v));
    lemma_strip_slashes_concat(v, slash);
    assert(strip_slashes(v + slash) =~= strip_slashes(v));
    // norm_version(v) is strip_slashes(v) + "/", so stripping it again
    // first removes the trailing slash, then leaves the slash-free part.
    assert(norm_version(v) =~= strip_slashes(v) + slash);
    lemma_strip_slashes_concat(strip_slashes(v), slash);
    lemma_strip_slashes_chars(v);
    assert(no_char(strip_slashes(v), '/'));
    lemma_strip_slashes_id(strip_slashes(v));
    assert(strip_slashes(norm_version(v)) =~= strip_slashes(v));
}

/// A normalized plain version segment is a plain relative reference ending
/// in `/`.
pub proof fn lemma_norm_version_plain(v: Seq<char>)
    requires
        plain_version(v),
    ensures
        plain_rel(norm_version(v)),
        norm_version(v).len() > 0,
        norm_version(v).last() == '/',
        no_char(norm_version(v), '?'),
        no_char(norm_version(v), '#'),
{
    let sv = strip_slashes(v);
    let nv = norm_version(v);
    lemma_strip_slashes_chars(v);
    assert(nv =~= sv + seq!['/']);
    assert forall|i: int| 0 <= i < nv.len() implies is_plain_rel_char(nv[i]) by {
        if i < sv.len() {
            let j = choose|j: int| 0 <= j < v.len() && v[j] == sv[i];
            assert(is_plain_rel_char(v[j]));
        } else {
            assert(nv[i] == '/');
        }
    }
    assert(nv[0] != '/');
    assert forall|i: int| 0 < i < nv.len() implies !(#[trigger] nv[i] == '/' && nv[i - 1] == '/') by {
        if i < sv.len() {
            assert(nv[i] != '/');
        } else {
            assert(i == sv.len());
            assert(nv[i - 1] != '/');
        }
    }
    assert forall|i: int| !dot_seg_at(nv, i) && !dotdot_seg_at(nv, i) by {
        if dot_seg_at(nv, i) {
            // the '.' would have '/' on both sides inside sv + ['/'],
            // which forces sv to be exactly ".".
            assert(i < sv.len());
            assert(i == 0);
            assert(i == nv.len() - 2 || nv[i + 1] == '/');
            assert(sv.len() == 1);
            assert(sv =~= seq!['.']);
            assert(false);
        }
        if dotdot_seg_at(nv, i) {
            assert(i + 1 < sv.len() || nv[i + 1] == '/');
            assert(i + 1 < sv.len());
            assert(i == 0);
            assert(i + 1 == nv.len() - 2 || nv[i + 2] == '/');
            assert(sv.len() == 2);
            assert(sv =~= seq!['.', '.']);
            assert(false);
        }
    }
    assert forall|i: int| 0 <= i < nv.len() implies nv[i] != '?' && nv[i] != '#' by {
        assert(is_plain_rel_char(nv[i]));
    }
}

/// Absence of a character is preserved by concatenation.
pub proof fn lemma_no_char_concat(a: Seq<char>, b: Seq<char>, c: char)
    requires
        no_char(a, c),
        no_char(b, c),
    ensures
        no_char(a + b, c),
{
    assert forall|i: int| 0 <= i < (a + b).len() implies (a + b)[i] != c by {
        if i < a.len() {
            assert((a + b)[i] == a[i]);
        } else {
            assert((a + b)[i] == b[i - a.len()]);
        }
    }
}

/// A prefix of `a` is a prefix of `a + b`.
pub proof fn lemma_starts_with_concat(a: Seq<char>, b: Seq<char>, p: Seq<char>)
    requires
        starts_with(a, p),
    ensures
        starts_with(a + b, p),
{
    assert((a + b).take(p.len() as int) =~= a.take(p.len() as int));
}

/// Composes base URL, version segment and relative path into one absolute
/// endpoint, or reports `URLParseError` when any step fails to parse.
///
/// For a well-formed base (`http`/`https`, normal form, trailing `/`, no
/// query or fragment) and plain version and path characters, the endpoint
/// is pinned down exactly: the base, then the de-slashed version, one `/`,
/// then the de-slashed path — so two compositions of the same triple are
/// always identical, and the path cannot escape the version root.
pub fn compose(base: &str, version: &str, path: &str) -> (r: Result<String, PorkbunnError>)
    ensures
        (compose_spec(base@, version@, path@) matches Some(u) ==> (r matches Ok(e) && e@ == u)),
        (compose_spec(base@, version@, path@) is None ==> r == Err::<String, PorkbunnError>(
            PorkbunnError::URLParseError,
        )),
        ((good_base(base@) && plain_version(version@) && plain_rel(strip_leading(path@))) ==> (
        r matches Ok(e) && e@ == base@ + strip_slashes(version@) + seq!['/'] + strip_leading(
            path@,
        ))),
{
    let ghost b = base@;
    let ghost cond = good_base(b) && plain_version(version@) && plain_rel(strip_leading(path@));
    let v = normalize_version(version);
    let p = strip_leading_slashes(path);
    proof {
        if cond {
            lemma_norm_version_plain(version@);
        }
    }
    let nb = match normalize_url(base) {
        Some(nb) => nb,
        None => {
            proof {
                if cond {
                    assert(url_normalized(b) == Some(b));
                    assert(false);
                }
            }
            return Err(PorkbunnError::URLParseError);
        },
    };
    let j1 = match join_url(nb.as_str(), v.as_str()) {
        Some(j1) => j1,
        None => {
            proof {
                if cond {
                    assert(nb@ == b);
                    assert(false);
                }
            }
            return Err(PorkbunnError::URLParseError);
        },
    };
    proof {
        if cond {
            assert(nb@ == b);
            assert(j1@ == b + norm_version(version@));
        }
    }
    let j2 = match join_url(j1.as_str(), p.as_str()) {
        Some(j2) => j2,
        None => {
            proof {
                if cond {
                    lemma_good_base_extends(b, norm_version(version@));
                    assert(false);
                }
            }
            return Err(PorkbunnError::URLParseError);
        },
    };
    proof {
        if cond {
            lemma_good_base_extends(b, norm_version(version@));
            assert(j2@ == (b + norm_version(version@)) + strip_leading(path@));
            assert(j2@ =~= b + strip_slashes(version@) + seq!['/'] + strip_leading(path@));
        }
    }
    Ok(j2)
}

/// Extending a good base with a normalized plain version segment yields a
/// good base again (given that the extension is already known to be in
/// normal form).
proof fn lemma_good_base_extends(b: Seq<char>, nv: Seq<char>)
    requires
        good_base(b),
        plain_rel(nv),
        nv.len() > 0,
        nv.last() == '/',
        no_char(nv, '?'),
        no_char(nv, '#'),
        url_normalized(b + nv) == Some(b + nv),
    ensures
        good_base(b + nv),
{
    let e = b + nv;
    assert(e.last() == nv.last());
    lemma_no_char_concat(b, nv, '?');
    lemma_no_char_concat(b, nv, '#');
    if starts_with(b, "https://"@) {
        lemma_starts_with_concat(b, nv, "https://"@);
    } else {
        lemma_starts_with_concat(b, nv, "http://"@);
    }
}

/// Law: composition is a function of its inputs alone — the same base,
/// version and path always compose to the same endpoint, byte for byte.
pub proof fn lemma_compose_deterministic(
    base: Seq<char>,
    version: Seq<char>,
    path: Seq<char>,
    r1: Option<Seq<char>>,
    r2: Option<Seq<char>>,
)
    requires
        r1 == compose_spec(base, version, path),
        r2 == compose_spec(base, version, path),
    ensures
        r1 == r2,
{
}

/// Law: an endpoint of the exact shape `base + segment + "/" + path` keeps
/// the base-plus-version prefix (nothing escapes above the version root)
/// and introduces no empty segment after the base.
pub proof fn lemma_compose_path_shape(b: Seq<char>, sv: Seq<char>, p: Seq<char>, e: Seq<char>)
    requires
        e == b + sv + seq!['/'] + p,
        b.len() > 0,
        b.last() == '/',
        sv.len() > 0,
        no_char(sv, '/'),
        plain_rel(p),
    ensures
        starts_with(e, b),
        starts_with(e, b + sv + seq!['/']),
        forall|i: int| b.len() <= i < e.len() ==> !(#[trigger] e[i] == '/' && e[i - 1] == '/'),
{
    let root = b + sv + seq!['/'];
    assert(e =~= root + p);
    assert(root.take(b.len() as int) =~= b);
    assert(e.take(b.len() as int) =~= b);
    assert(e.take(root.len() as int) =~= root);
    assert forall|i: int| b.len() <= i < e.len() implies !(#[trigger] e[i] == '/' && e[i - 1] == '/') by {
        if i < b.len() + sv.len() {
            assert(e[i] == sv[i - b.len()]);
            assert(e[i] != '/');
        } else if i == b.len() + sv.len() {
            // the separator slash; the character before it is the last of sv
            assert(e[i - 1] == sv[sv.len() - 1]);
            assert(e[i - 1] != '/');
        } else {
            // inside p: p has no leading slash and no double slash
            let k = i - root.len();
            assert(e[i] == p[k]);
            if k == 0 {
                assert(p.len() > 0 ==> p[0] != '/');
                assert(e[i] != '/');
            } else {
                assert(e[i - 1] == p[k - 1]);
                assert(!(p[k] == '/' && p[k - 1] == '/'));
            }
        }
    }
}

} // verus!
