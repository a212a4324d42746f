//! The documented identification convention for user agent strings.
//!
//! A conventional identification string has the shape
//! `{name} v{major}.{minor}.{patch}` with an optional pre-release label
//! `-alpha` or `-beta`, itself optionally followed by a dot and a number:
//! for example `hypertyper v1.2.3` or `hypertyper v1.2.3-beta.1`. The
//! predicate [`matches_convention`] states the shape over character
//! sequences, [`matches_user_agent_convention`] decides it, and
//! [`lemma_new_matches_convention`] shows that a factory built from a
//! conventional name and version produces a matching identification
//! string.

use vstd::prelude::*;

verus! {

/// A lower-case ASCII letter.
pub open spec fn is_lower(c: char) -> bool {
    ('a' as u32) <= (c as u32) && (c as u32) <= ('z' as u32)
}

/// A decimal digit.
pub open spec fn is_digit(c: char) -> bool {
    ('0' as u32) <= (c as u32) && (c as u32) <= ('9' as u32)
}

/// A non-empty run of lower-case letters.
pub open spec fn is_lower_word(s: Seq<char>) -> bool {
    s.len() > 0 && forall|i: int| 0 <= i < s.len() ==> is_lower(s[i])
}

/// A non-empty run of decimal digits.
pub open spec fn is_number(s: Seq<char>) -> bool {
    s.len() > 0 && forall|i: int| 0 <= i < s.len() ==> is_digit(s[i])
}

/// `pre` decomposes as `-{tag}{num}` with `tag` one of the two pre-release
/// labels and `num` empty or a dot followed by a number.
pub open spec fn prerelease_parts(pre: Seq<char>, tag: Seq<char>, num: Seq<char>) -> bool {
    pre == seq!['-'] + tag + num && (tag == "alpha"@ || tag == "beta"@) && (num.len() == 0 || (
    num[0] == '.' && is_number(num.skip(1))))
}

/// An optional pre-release label: empty, or `-alpha`/`-beta`, optionally
/// followed by a dot and a number.
pub open spec fn is_prerelease(pre: Seq<char>) -> bool {
    pre.len() == 0 || exists|tag: Seq<char>, num: Seq<char>| prerelease_parts(pre, tag, num)
}

/// `v` decomposes as `{a}.{b}.{c}{pre}` with dotted numbers and an
/// optional pre-release label.
pub open spec fn version_parts(
    v: Seq<char>,
    a: Seq<char>,
    b: Seq<char>,
    c: Seq<char>,
    pre: Seq<char>,
) -> bool {
    v == a + "."@ + b + "."@ + c + pre && is_number(a) && is_number(b) && is_number(c)
        && is_prerelease(pre)
}

/// A dotted version: `{major}.{minor}.{patch}` with an optional
/// pre-release label.
pub open spec fn is_version(v: Seq<char>) -> bool {
    exists|a: Seq<char>, b: Seq<char>, c: Seq<char>, pre: Seq<char>| version_parts(v, a, b, c, pre)
}

/// `s` decomposes as `{name} v{ver}`.
pub open spec fn convention_parts(s: Seq<char>, name: Seq<char>, ver: Seq<char>) -> bool {
    s == name + " v"@ + ver && is_lower_word(name) && is_version(ver)
}

/// The documented identification convention: `{name} v{version}`.
pub open spec fn matches_convention(s: Seq<char>) -> bool {
    exists|name: Seq<char>, ver: Seq<char>| convention_parts(s, name, ver)
}

/// An identification string built from a conventional package name
/// (lower-case letters) and version (a dotted version with an optional
/// pre-release label) matches the documented convention.
pub proof fn lemma_new_matches_convention(name: Seq<char>, version: Seq<char>)
    requires
        is_lower_word(name),
        is_version(version),
    ensures
        matches_convention(name + " v"@ + version),
{
    assert(convention_parts(name + " v"@ + version, name, version));
}

proof fn lemma_agent_concat(a: Seq<char>, b: Seq<char>)
    requires
        crate::valid_user_agent(a),
        crate::valid_user_agent(b),
    ensures
        crate::valid_user_agent(a + b),
{
    assert forall|i: int| 0 <= i < (a + b).len() implies crate::is_agent_char((a + b)[i]) by {
        if i < a.len() {
            assert((a + b)[i] == a[i]);
        } else {
            assert((a + b)[i] == b[i - a.len()]);
        }
    }
}

proof fn lemma_lower_word_valid(w: Seq<char>)
    requires
        forall|i: int| 0 <= i < w.len() ==> is_lower(w[i]),
    ensures
        crate::valid_user_agent(w),
{
    assert forall|i: int| 0 <= i < w.len() implies crate::is_agent_char(w[i]) by {
        assert(is_lower(w[i]));
    }
}

proof fn lemma_number_valid(w: Seq<char>)
    requires
        forall|i: int| 0 <= i < w.len() ==> is_digit(w[i]),
    ensures
        crate::valid_user_agent(w),
{
    assert forall|i: int| 0 <= i < w.len() implies crate::is_agent_char(w[i]) by {
        assert(is_digit(w[i]));
    }
}

proof fn lemma_prerelease_valid(pre: Seq<char>)
    requires
        is_prerelease(pre),
    ensures
        crate::valid_user_agent(pre),
{
    if pre.len() > 0 {
        let (tag, num) = choose|tag: Seq<char>, num: Seq<char>| prerelease_parts(pre, tag, num);
        reveal_strlit("alpha");
        reveal_strlit("beta");
        assert(crate::valid_user_agent(seq!['-'])) by {
            assert(seq!['-'][0] == '-');
        }
        assert(crate::valid_user_agent(tag)) by {
            assert forall|i: int| 0 <= i < tag.len() implies crate::is_agent_char(tag[i]) by {
                if tag == "alpha"@ {
                    assert(tag[0] == 'a' && tag[1] == 'l' && tag[2] == 'p' && tag[3] == 'h'
                        && tag[4] == 'a');
                } else {
                    assert(tag[0] == 'b' && tag[1] == 'e' && tag[2] == 't' && tag[3] == 'a');
                }
            }
        }
        assert(crate::valid_user_agent(num)) by {
            assert forall|i: int| 0 <= i < num.len() implies crate::is_agent_char(num[i]) by {
                if i == 0 {
                    assert(num[0] == '.');
                } else {
                    assert(is_digit(num.skip(1)[i - 1]));
                    assert(num.skip(1)[i - 1] == num[i]);
                }
            }
        }
        lemma_agent_concat(seq!['-'], tag);
        lemma_agent_concat(seq!['-'] + tag, num);
    }
}

proof fn lemma_version_valid(v: Seq<char>)
    requires
        is_version(v),
    ensures
        crate::valid_user_agent(v),
{
    let (a, b, c, pre) = choose|a: Seq<char>, b: Seq<char>, c: Seq<char>, pre: Seq<char>|
        version_parts(v, a, b, c, pre);
    reveal_strlit(".");
    assert(crate::valid_user_agent("."@)) by {
        assert("."@[0] == '.');
    }
    lemma_number_valid(a);
    lemma_number_valid(b);
    lemma_number_valid(c);
    lemma_prerelease_valid(pre);
    lemma_agent_concat(a, "."@);
    lemma_agent_concat(a + "."@, b);
    lemma_agent_concat(a + "."@ + b, "."@);
    lemma_agent_concat(a + "."@ + b + "."@, c);
    lemma_agent_concat(a + "."@ + b + "."@ + c, pre);
}

/// A string following the documented identification convention is a legal
/// user agent header value, so a factory holding one can always build
/// clients.
pub proof fn lemma_convention_is_valid_agent(s: Seq<char>)
    requires
        matches_convention(s),
    ensures
        crate::valid_user_agent(s),
{
    let (name, ver) = choose|name: Seq<char>, ver: Seq<char>| convention_parts(s, name, ver);
    reveal_strlit(" v");
    assert(crate::valid_user_agent(" v"@)) by {
        assert(" v"@[0] == ' ' && " v"@[1] == 'v');
        assert forall|i: int| 0 <= i < " v"@.len() implies crate::is_agent_char(" v"@[i]) by {
            if i == 0 {
                assert(" v"@[0] == ' ');
            } else {
                assert(" v"@[1] == 'v');
            }
        }
    }
    lemma_lower_word_valid(name);
    lemma_version_valid(ver);
    lemma_agent_concat(name, " v"@);
    lemma_agent_concat(name + " v"@, ver);
}

/// Decides [`is_lower`] for a character.
fn is_lower_char(c: char) -> (b: bool)
    ensures
        b == is_lower(c),
{
    let u: u32 = c as u32;
    ('a' as u32) <= u && u <= ('z' as u32)
}

/// Decides [`is_digit`] for a character.
fn is_digit_char(c: char) -> (b: bool)
    ensures
        b == is_digit(c),
{
    let u: u32 = c as u32;
    ('0' as u32) <= u && u <= ('9' as u32)
}

/// The end of the run of lower-case letters starting at `from`.
fn scan_lower(s: &str, from: usize) -> (r: usize)
    requires
        from <= s@.len(),
    ensures
        from <= r <= s@.len(),
        forall|j: int| from <= j < r ==> is_lower(s@[j]),
        r == s@.len() || !is_lower(s@[r as int]),
{
    let n = s.unicode_len();
    let mut i = from;
    while i < n && is_lower_char(s.get_char(i))
        invariant
            from <= i <= n,
            n == s@.len(),
            forall|j: int| from <= j < i ==> is_lower(s@[j]),
        decreases n - i,
    {
        i = i + 1;
    }
    i
}

/// The end of the run of decimal digits starting at `from`.
fn scan_digits(s: &str, from: usize) -> (r: usize)
    requires
        from <= s@.len(),
    ensures
        from <= r <= s@.len(),
        forall|j: int| from <= j < r ==> is_digit(s@[j]),
        r == s@.len() || !is_digit(s@[r as int]),
{
    let n = s.unicode_len();
    let mut i = from;
    while i < n && is_digit_char(s.get_char(i))
        invariant
            from <= i <= n,
            n == s@.len(),
            forall|j: int| from <= j < i ==> is_digit(s@[j]),
        decreases n - i,
    {
        i = i + 1;
    }
    i
}

proof fn lemma_digit_run_forced(w: Seq<char>, x: Seq<char>, rest: Seq<char>, j: int)
    requires
        w == x + rest,
        is_number(x),
        rest.len() == 0 || !is_digit(rest[0]),
        0 <= j <= w.len(),
        forall|k: int| 0 <= k < j ==> is_digit(w[k]),
        j == w.len() || !is_digit(w[j]),
    ensures
        x.len() == j,
        x == w.take(j),
        rest == w.skip(j),
{
    let xl = x.len() as int;
    if xl < j {
        assert(rest.len() > 0);
        assert(w[xl] == rest[0]);
        assert(is_digit(w[xl]));
        assert(false);
    }
    if xl > j {
        assert(w[j] == x[j]);
        assert(is_digit(x[j]));
        assert(false);
    }
    assert(x =~= w.take(j));
    assert(rest =~= w.skip(j));
}

proof fn lemma_prerelease_forced(pre: Seq<char>, tag: Seq<char>, num: Seq<char>)
    requires
        prerelease_parts(pre, tag, num),
    ensures
        pre.len() >= 1 + tag.len(),
        pre[0] == '-',
        tag == pre.subrange(1, 1 + tag.len() as int),
        num == pre.skip(1 + tag.len() as int),
        tag == "alpha"@ || tag == "beta"@,
{
    assert(tag =~= pre.subrange(1, 1 + tag.len() as int));
    assert(num =~= pre.skip(1 + tag.len() as int));
}

/// Decides whether the suffix of `v` starting at `from` is an optional
/// pre-release label.
fn is_prerelease_str(v: &str, from: usize) -> (b: bool)
    requires
        from <= v@.len(),
    ensures
        b == is_prerelease(v@.skip(from as int)),
{
    let ghost pre = v@.skip(from as int);
    let n = v.unicode_len();
    if from == n {
        return true;
    }
    if v.get_char(from) != '-' {
        proof {
            if is_prerelease(pre) {
                let (tag, num) = choose|tag: Seq<char>, num: Seq<char>|
                    prerelease_parts(pre, tag, num);
                lemma_prerelease_forced(pre, tag, num);
                assert(pre[0] == v@[from as int]);
                assert(false);
            }
        }
        return false;
    }
    let alpha_match = n - from >= 6 && v.get_char(from + 1) == 'a' && v.get_char(from + 2) == 'l'
        && v.get_char(from + 3) == 'p' && v.get_char(from + 4) == 'h' && v.get_char(from + 5)
        == 'a';
    let beta_match = n - from >= 5 && v.get_char(from + 1) == 'b' && v.get_char(from + 2) == 'e'
        && v.get_char(from + 3) == 't' && v.get_char(from + 4) == 'a';
    proof {
        reveal_strlit("alpha");
        reveal_strlit("beta");
    }
    if !alpha_match && !beta_match {
        proof {
            if is_prerelease(pre) {
                let (tag, num) = choose|tag: Seq<char>, num: Seq<char>|
                    prerelease_parts(pre, tag, num);
                lemma_prerelease_forced(pre, tag, num);
                assert(pre.len() == n - from);
                if tag == "alpha"@ {
                    assert(tag.len() == 5);
                    assert(n - from >= 6);
                    assert(v@[from + 1] == tag[0] && tag[0] == 'a');
                    assert(v@[from + 2] == tag[1] && tag[1] == 'l');
                    assert(v@[from + 3] == tag[2] && tag[2] == 'p');
                    assert(v@[from + 4] == tag[3] && tag[3] == 'h');
                    assert(v@[from + 5] == tag[4] && tag[4] == 'a');
                    assert(alpha_match);
                    assert(false);
                } else {
                    assert(tag.len() == 4);
                    assert(n - from >= 5);
                    assert(v@[from + 1] == tag[0] && tag[0] == 'b');
                    assert(v@[from + 2] == tag[1] && tag[1] == 'e');
                    assert(v@[from + 3] == tag[2] && tag[2] == 't');
                    assert(v@[from + 4] == tag[3] && tag[3] == 'a');
                    assert(beta_match);
                    assert(false);
                }
            }
        }
        return false;
    }
    let tag_end: usize = if alpha_match {
        from + 6
    } else {
        from + 5
    };
    let ghost gtag: Seq<char> = if alpha_match {
        "alpha"@
    } else {
        "beta"@
    };
    let ghost num = v@.skip(tag_end as int);
    proof {
        // Any decomposition of `pre` uses the tag that matched: the two
        // labels differ in their first character.
        if is_prerelease(pre) {
            let (tag, num0) = choose|tag: Seq<char>, num0: Seq<char>|
                prerelease_parts(pre, tag, num0);
            lemma_prerelease_forced(pre, tag, num0);
            assert(tag[0] == v@[from + 1]);
            assert(tag == gtag);
            assert(num0 =~= num);
        }
    }
    if tag_end == n {
        proof {
            assert(pre =~= seq!['-'] + gtag + num);
            assert(prerelease_parts(pre, gtag, num));
        }
        return true;
    }
    if v.get_char(tag_end) != '.' {
        proof {
            if is_prerelease(pre) {
                assert(num.len() > 0 && num[0] == v@[tag_end as int]);
                assert(false);
            }
        }
        return false;
    }
    let digits_end = scan_digits(v, tag_end + 1);
    if digits_end == n && tag_end + 1 < n {
        proof {
            assert(num[0] == '.');
            assert(num.skip(1) =~= v@.skip(tag_end + 1));
            assert(is_number(num.skip(1)));
            assert(pre =~= seq!['-'] + gtag + num);
            assert(prerelease_parts(pre, gtag, num));
        }
        true
    } else {
        proof {
            if is_prerelease(pre) {
                let (tag, num0) = choose|tag: Seq<char>, num0: Seq<char>|
                    prerelease_parts(pre, tag, num0);
                lemma_prerelease_forced(pre, tag, num0);
                assert(tag == gtag);
                assert(num0 =~= num);
                assert(num.len() > 0);
                assert(is_number(num.skip(1)));
                assert(num.skip(1) =~= v@.skip(tag_end + 1));
                assert(v@.skip(tag_end + 1).len() > 0);
                if digits_end < n {
                    assert(is_digit(v@.skip(tag_end + 1)[digits_end - tag_end - 1]));
                    assert(false);
                } else {
                    assert(false);
                }
            }
        }
        false
    }
}

proof fn lemma_version_stage1(
    v: Seq<char>,
    a: Seq<char>,
    b: Seq<char>,
    c: Seq<char>,
    pre: Seq<char>,
    j1: int,
)
    requires
        version_parts(v, a, b, c, pre),
        0 <= j1 <= v.len(),
        forall|k: int| 0 <= k < j1 ==> is_digit(v[k]),
        j1 == v.len() || !is_digit(v[j1]),
    ensures
        a == v.take(j1),
        1 <= j1,
        j1 + 1 <= v.len(),
        v[j1] == '.',
        b + "."@ + c + pre == v.skip(j1 + 1),
{
    reveal_strlit(".");
    let rest = "."@ + b + "."@ + c + pre;
    assert(v =~= a + rest);
    assert(rest[0] == '.');
    lemma_digit_run_forced(v, a, rest, j1);
    assert(v[j1] == rest[0]);
    assert(b + "."@ + c + pre =~= v.skip(j1 + 1));
}

proof fn lemma_version_stage2(
    v: Seq<char>,
    a: Seq<char>,
    b: Seq<char>,
    c: Seq<char>,
    pre: Seq<char>,
    j1: int,
    j2: int,
)
    requires
        version_parts(v, a, b, c, pre),
        0 <= j1 <= v.len(),
        forall|k: int| 0 <= k < j1 ==> is_digit(v[k]),
        j1 == v.len() || !is_digit(v[j1]),
        j1 + 1 <= j2 <= v.len(),
        forall|k: int| j1 + 1 <= k < j2 ==> is_digit(v[k]),
        j2 == v.len() || !is_digit(v[j2]),
    ensures
        b == v.subrange(j1 + 1, j2),
        j1 + 2 <= j2,
        j2 + 1 <= v.len(),
        v[j2] == '.',
        c + pre == v.skip(j2 + 1),
{
    reveal_strlit(".");
    lemma_version_stage1(v, a, b, c, pre, j1);
    let w = v.skip(j1 + 1);
    let rest = "."@ + c + pre;
    assert(w =~= b + rest);
    assert(rest[0] == '.');
    assert(forall|k: int| 0 <= k < j2 - j1 - 1 ==> w[k] == v[j1 + 1 + k]);
    lemma_digit_run_forced(w, b, rest, j2 - j1 - 1);
    assert(b =~= v.subrange(j1 + 1, j2));
    assert(v[j2] == rest[0]);
    assert(c + pre =~= v.skip(j2 + 1));
}

proof fn lemma_version_stage3(
    v: Seq<char>,
    a: Seq<char>,
    b: Seq<char>,
    c: Seq<char>,
    pre: Seq<char>,
    j1: int,
    j2: int,
    j3: int,
)
    requires
        version_parts(v, a, b, c, pre),
        0 <= j1 <= v.len(),
        forall|k: int| 0 <= k < j1 ==> is_digit(v[k]),
        j1 == v.len() || !is_digit(v[j1]),
        j1 + 1 <= j2 <= v.len(),
        forall|k: int| j1 + 1 <= k < j2 ==> is_digit(v[k]),
        j2 == v.len() || !is_digit(v[j2]),
        j2 + 1 <= j3 <= v.len(),
        forall|k: int| j2 + 1 <= k < j3 ==> is_digit(v[k]),
        j3 == v.len() || !is_digit(v[j3]),
    ensures
        c == v.subrange(j2 + 1, j3),
        j2 + 2 <= j3,
        pre == v.skip(j3),
        is_prerelease(pre),
{
    lemma_version_stage2(v, a, b, c, pre, j1, j2);
    let w = v.skip(j2 + 1);
    assert(w =~= c + pre);
    if pre.len() > 0 {
        let (tag, num) = choose|tag: Seq<char>, num: Seq<char>| prerelease_parts(pre, tag, num);
        lemma_prerelease_forced(pre, tag, num);
        assert(!is_digit('-'));
    }
    assert(forall|k: int| 0 <= k < j3 - j2 - 1 ==> w[k] == v[j2 + 1 + k]);
    lemma_digit_run_forced(w, c, pre, j3 - j2 - 1);
    assert(c =~= v.subrange(j2 + 1, j3));
    assert(pre =~= v.skip(j3));
}

/// Decides [`is_version`] for a string.
fn is_version_str(v: &str) -> (r: bool)
    ensures
        r == is_version(v@),
{
    proof {
        reveal_strlit(".");
    }
    let n = v.unicode_len();
    let j1 = scan_digits(v, 0);
    if j1 == 0 || j1 >= n || v.get_char(j1) != '.' {
        proof {
            if is_version(v@) {
                let (a, b, c, pre) = choose|
                    a: Seq<char>,
                    b: Seq<char>,
                    c: Seq<char>,
                    pre: Seq<char>,
                |
                    version_parts(v@, a, b, c, pre);
                lemma_version_stage1(v@, a, b, c, pre, j1 as int);
                assert(false);
            }
        }
        return false;
    }
    let j2 = scan_digits(v, j1 + 1);
    if j2 == j1 + 1 || j2 >= n || v.get_char(j2) != '.' {
        proof {
            if is_version(v@) {
                let (a, b, c, pre) = choose|
                    a: Seq<char>,
                    b: Seq<char>,
                    c: Seq<char>,
                    pre: Seq<char>,
                |
                    version_parts(v@, a, b, c, pre);
                lemma_version_stage2(v@, a, b, c, pre, j1 as int, j2 as int);
                assert(false);
            }
        }
        return false;
    }
    let j3 = scan_digits(v, j2 + 1);
    if j3 == j2 + 1 {
        proof {
            if is_version(v@) {
                let (a, b, c, pre) = choose|
                    a: Seq<char>,
                    b: Seq<char>,
                    c: Seq<char>,
                    pre: Seq<char>,
                |
                    version_parts(v@, a, b, c, pre);
                lemma_version_stage3(v@, a, b, c, pre, j1 as int, j2 as int, j3 as int);
                assert(false);
            }
        }
        return false;
    }
    let pre_ok = is_prerelease_str(v, j3);
    if pre_ok {
        proof {
            let ga = v@.take(j1 as int);
            let gb = v@.subrange(j1 + 1, j2 as int);
            let gc = v@.subrange(j2 + 1, j3 as int);
            let gpre = v@.skip(j3 as int);
            assert(v@ =~= ga + "."@ + gb + "."@ + gc + gpre);
            assert(version_parts(v@, ga, gb, gc, gpre));
        }
        true
    } else {
        proof {
            if is_version(v@) {
                let (a, b, c, pre) = choose|
                    a: Seq<char>,
                    b: Seq<char>,
                    c: Seq<char>,
                    pre: Seq<char>,
                |
                    version_parts(v@, a, b, c, pre);
                lemma_version_stage3(v@, a, b, c, pre, j1 as int, j2 as int, j3 as int);
                assert(false);
            }
        }
        false
    }
}

proof fn lemma_name_forced(s: Seq<char>, name: Seq<char>, ver: Seq<char>, i: int)
    requires
        convention_parts(s, name, ver),
        0 <= i <= s.len(),
        forall|j: int| 0 <= j < i ==> is_lower(s[j]),
        i == s.len() || !is_lower(s[i]),
    ensures
        name.len() == i,
        1 <= i,
        i + 2 <= s.len(),
        s[i] == ' ',
        s[i + 1] == 'v',
        ver == s.skip(i + 2),
        is_version(ver),
{
    reveal_strlit(" v");
    let rest = " v"@ + ver;
    assert(s =~= name + rest);
    let nl = name.len() as int;
    assert(s[nl] == rest[0]);
    assert(rest[0] == ' ');
    if nl < i {
        assert(is_lower(s[nl]));
        assert(false);
    }
    if nl > i {
        assert(s[i] == name[i]);
        assert(is_lower(name[i]));
        assert(false);
    }
    assert(s[i + 1] == rest[1]);
    assert(ver =~= s.skip(i + 2));
}

/// Decides [`matches_convention`] for a string: whether it follows the
/// documented identification convention.
pub fn matches_user_agent_convention(s: &str) -> (r: bool)
    ensures
        r == matches_convention(s@),
{
    proof {
        reveal_strlit(" v");
    }
    let n = s.unicode_len();
    let i = scan_lower(s, 0);
    if i == 0 || n - i < 3 || s.get_char(i) != ' ' || s.get_char(i + 1) != 'v' {
        proof {
            if matches_convention(s@) {
                let (name, ver) = choose|name: Seq<char>, ver: Seq<char>|
                    convention_parts(s@, name, ver);
                lemma_name_forced(s@, name, ver, i as int);
                let (a, b, c, pre) = choose|
                    a: Seq<char>,
                    b: Seq<char>,
                    c: Seq<char>,
                    pre: Seq<char>,
                |
                    version_parts(ver, a, b, c, pre);
                reveal_strlit(".");
                assert(ver.len() >= 3);
                assert(false);
            }
        }
        return false;
    }
    let tail = s.substring_char(i + 2, n);
    let ver_ok = is_version_str(tail);
    proof {
        assert(tail@ =~= s@.skip(i + 2));
    }
    if ver_ok {
        proof {
            assert(s@ =~= s@.take(i as int) + " v"@ + s@.skip(i + 2));
            assert(convention_parts(s@, s@.take(i as int), s@.skip(i + 2)));
        }
        true
    } else {
        proof {
            if matches_convention(s@) {
                let (name, ver) = choose|name: Seq<char>, ver: Seq<char>|
                    convention_parts(s@, name, ver);
                lemma_name_forced(s@, name, ver, i as int);
                assert(false);
            }
        }
        false
    }
}

} // verus!
