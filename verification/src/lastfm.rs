//! Last.fm request signing: MD5 hex digests (through the `md5` crate), the
//! name-ordered form parameters of each call and their `api_sig`.
use vstd::prelude::*;
use crate::text::{chars_of, push_char, push_decimal, push_str_chars, decimal};
use crate::urlenc::encode_utf8_of;
use crate::json::{field, opt_view, text, text_of, Json};

verus! {

// ─── MD5 ─────────────────────────────────────────────────────────────────────

/// The MD5 digest of a byte string.
pub uninterp spec fn md5_of(data: Seq<u8>) -> Seq<u8>;

/// `md5::compute`: the digest of `data`, whose 16 bytes it returns.
#[verifier::external_body]
fn md5_bytes(data: &[u8]) -> (r: Vec<u8>)
    ensures
        r@ == md5_of(data@),
        r@.len() == 16,
{
    md5::compute(data).0.to_vec()
}

/// The lowercase hexadecimal digit for a value below 16.
pub open spec fn hex_lower_digit(d: nat) -> char {
    if d < 10 {
        ((d + 48) as u8) as char
    } else {
        ((d + 87) as u8) as char
    }
}

/// Each byte as two lowercase hexadecimal digits (what `{:x}` prints for a
/// digest).
pub open spec fn hex_lower(b: Seq<u8>) -> Seq<char>
    decreases b.len(),
{
    if b.len() == 0 {
        seq![]
    } else {
        hex_lower(b.drop_last()) + seq![
            hex_lower_digit((b.last() / 16) as nat),
            hex_lower_digit((b.last() % 16) as nat),
        ]
    }
}

fn hex_digit(d: u8) -> (c: char)
    requires
        d < 16,
    ensures
        c == hex_lower_digit(d as nat),
{
    if d < 10 {
        (d + 48) as char
    } else {
        (d + 87) as char
    }
}

/// Writes bytes as lowercase hexadecimal.
pub fn hex_string(b: &[u8]) -> (r: String)
    ensures
        r@ == hex_lower(b@),
{
    let mut out = String::new();
    let mut i: usize = 0;
    while i < b.len()
        invariant
            i <= b@.len(),
            out@ == hex_lower(b@.subrange(0, i as int)),
        decreases b@.len() - i,
    {
        let x = b[i];
        push_char(&mut out, hex_digit(x / 16));
        push_char(&mut out, hex_digit(x % 16));
        proof {
            let s = b@.subrange(0, i + 1);
            assert(s.drop_last() =~= b@.subrange(0, i as int));
            assert(s.last() == x);
        }
        i = i + 1;
    }
    assert(b@.subrange(0, b@.len() as int) =~= b@);
    out
}

/// The MD5 digest of the UTF-8 bytes of `s`, in lowercase hexadecimal.
pub fn md5_hex(s: &str) -> (r: String)
    ensures
        r@ == hex_lower(md5_of(encode_utf8_of(s@))),
{
    let bytes = s.as_bytes();
    let d = md5_bytes(bytes);
    hex_string(d.as_slice())
}

// ─── Name order ──────────────────────────────────────────────────────────────

/// `a` sorts before `b`: the first character where they differ is smaller in
/// `a`, or `a` is a proper prefix of `b`.
pub open spec fn str_lt(a: Seq<char>, b: Seq<char>) -> bool
    decreases a.len(),
{
    if a.len() == 0 {
        b.len() > 0
    } else if b.len() == 0 {
        false
    } else if a[0] != b[0] {
        a[0] < b[0]
    } else {
        str_lt(a.drop_first(), b.drop_first())
    }
}

/// Name order is transitive.
pub proof fn lemma_str_lt_trans(a: Seq<char>, b: Seq<char>, c: Seq<char>)
    requires
        str_lt(a, b),
        str_lt(b, c),
    ensures
        str_lt(a, c),
    decreases a.len(),
{
    if a.len() > 0 && b.len() > 0 && c.len() > 0 && a[0] == b[0] && b[0] == c[0] {
        lemma_str_lt_trans(a.drop_first(), b.drop_first(), c.drop_first());
    }
}

/// Of two different names exactly one sorts first; no name sorts before itself.
pub proof fn lemma_str_lt_total(a: Seq<char>, b: Seq<char>)
    ensures
        a == b ==> !str_lt(a, b),
        a != b ==> (str_lt(a, b) || str_lt(b, a)),
        !(str_lt(a, b) && str_lt(b, a)),
    decreases a.len(),
{
    if a.len() > 0 && b.len() > 0 && a[0] == b[0] {
        lemma_str_lt_total(a.drop_first(), b.drop_first());
        assert(a =~= seq![a[0]] + a.drop_first());
        assert(b =~= seq![b[0]] + b.drop_first());
        if a == b {
            assert(a.drop_first() =~= b.drop_first());
        }
    } else if a.len() == 0 && b.len() == 0 {
        assert(a =~= b);
    }
}

fn str_less(a: &[char], b: &[char]) -> (r: bool)
    ensures
        r == str_lt(a@, b@),
{
    let mut i: usize = 0;
    assert(a@.skip(0) =~= a@ && b@.skip(0) =~= b@);
    while i < a.len() && i < b.len() && a[i] == b[i]
        invariant
            i <= a@.len(),
            i <= b@.len(),
            str_lt(a@, b@) == str_lt(a@.skip(i as int), b@.skip(i as int)),
        decreases a@.len() - i,
    {
        proof {
            let sa = a@.skip(i as int);
            let sb = b@.skip(i as int);
            assert(sa.drop_first() =~= a@.skip(i + 1));
            assert(sb.drop_first() =~= b@.skip(i + 1));
        }
        i = i + 1;
    }
    let ghost sa = a@.skip(i as int);
    let ghost sb = b@.skip(i as int);
    if i == a.len() {
        assert(sa.len() == 0);
        i < b.len()
    } else if i == b.len() {
        assert(sb.len() == 0 && sa.len() > 0);
        false
    } else {
        assert(sa[0] == a@[i as int] && sb[0] == b@[i as int]);
        a[i] < b[i]
    }
}

// ─── Form parameters ─────────────────────────────────────────────────────────

/// `s` with the pair `(k, v)` put in: a pair with name `k` gets the value `v`;
/// otherwise the pair goes before the first name that sorts after `k`.
pub open spec fn put_pair(s: Seq<(Seq<char>, Seq<char>)>, k: Seq<char>, v: Seq<char>) -> Seq<
    (Seq<char>, Seq<char>),
>
    decreases s.len(),
{
    if s.len() == 0 {
        seq![(k, v)]
    } else if s[0].0 == k {
        seq![(k, v)] + s.drop_first()
    } else if str_lt(k, s[0].0) {
        seq![(k, v)] + s
    } else {
        seq![s[0]] + put_pair(s.drop_first(), k, v)
    }
}

/// Names strictly ascending (so none occurs twice).
pub open spec fn names_sorted(s: Seq<(Seq<char>, Seq<char>)>) -> bool {
    forall|i: int, j: int| 0 <= i < j < s.len() ==> str_lt(#[trigger] s[i].0, #[trigger] s[j].0)
}

/// The value of the pair named `k` (the first one, from the front).
pub open spec fn value_of(s: Seq<(Seq<char>, Seq<char>)>, k: Seq<char>) -> Option<Seq<char>>
    decreases s.len(),
{
    if s.len() == 0 {
        None
    } else if s[0].0 == k {
        Some(s[0].1)
    } else {
        value_of(s.drop_first(), k)
    }
}

proof fn lemma_put_pair_names(s: Seq<(Seq<char>, Seq<char>)>, k: Seq<char>, v: Seq<char>)
    ensures
        forall|i: int|
            0 <= i < put_pair(s, k, v).len() ==> (#[trigger] put_pair(s, k, v)[i]).0 == k || exists|
                j: int,
            | 0 <= j < s.len() && s[j].0 == put_pair(s, k, v)[i].0,
    decreases s.len(),
{
    let p = put_pair(s, k, v);
    if s.len() == 0 {
    } else if s[0].0 == k {
        assert forall|i: int| 0 <= i < p.len() implies (#[trigger] p[i]).0 == k || exists|j: int|
            0 <= j < s.len() && s[j].0 == p[i].0 by {
            if i > 0 {
                assert(p[i] == s[i]);
            }
        }
    } else if str_lt(k, s[0].0) {
        assert forall|i: int| 0 <= i < p.len() implies (#[trigger] p[i]).0 == k || exists|j: int|
            0 <= j < s.len() && s[j].0 == p[i].0 by {
            if i > 0 {
                assert(p[i] == s[i - 1]);
            }
        }
    } else {
        let t = s.drop_first();
        lemma_put_pair_names(t, k, v);
        let q = put_pair(t, k, v);
        assert(p =~= seq![s[0]] + q);
        assert forall|i: int| 0 <= i < p.len() implies (#[trigger] p[i]).0 == k || exists|j: int|
            0 <= j < s.len() && s[j].0 == p[i].0 by {
            if i == 0 {
                assert(p[0] == s[0]);
            } else {
                assert(p[i] == q[i - 1]);
                if q[i - 1].0 != k {
                    let m = choose|m: int| 0 <= m < t.len() && t[m].0 == q[i - 1].0;
                    assert(s[m + 1] == t[m]);
                }
            }
        }
    }
}

/// Putting a pair into a name-sorted list keeps it name-sorted.
pub proof fn lemma_put_pair_sorted(s: Seq<(Seq<char>, Seq<char>)>, k: Seq<char>, v: Seq<char>)
    requires
        names_sorted(s),
    ensures
        names_sorted(put_pair(s, k, v)),
    decreases s.len(),
{
    let p = put_pair(s, k, v);
    if s.len() == 0 {
    } else if s[0].0 == k {
        assert forall|i: int, j: int| 0 <= i < j < p.len() implies str_lt(
            #[trigger] p[i].0,
            #[trigger] p[j].0,
        ) by {
            assert(p[j] == s[j]);
            if i > 0 {
                assert(p[i] == s[i]);
            }
        }
    } else if str_lt(k, s[0].0) {
        assert forall|i: int, j: int| 0 <= i < j < p.len() implies str_lt(
            #[trigger] p[i].0,
            #[trigger] p[j].0,
        ) by {
            assert(p[j] == s[j - 1]);
            if i > 0 {
                assert(p[i] == s[i - 1]);
            } else if j - 1 > 0 {
                lemma_str_lt_trans(k, s[0].0, s[j - 1].0);
            }
        }
    } else {
        let t = s.drop_first();
        assert(names_sorted(t)) by {
            assert forall|i: int, j: int| 0 <= i < j < t.len() implies str_lt(
                #[trigger] t[i].0,
                #[trigger] t[j].0,
            ) by {
                assert(t[i] == s[i + 1] && t[j] == s[j + 1]);
            }
        }
        lemma_put_pair_sorted(t, k, v);
        let q = put_pair(t, k, v);
        assert(p =~= seq![s[0]] + q);
        lemma_str_lt_total(k, s[0].0);
        assert forall|i: int, j: int| 0 <= i < j < p.len() implies str_lt(
            #[trigger] p[i].0,
            #[trigger] p[j].0,
        ) by {
            if i == 0 {
                assert(p[j] == q[j - 1]);
                lemma_put_pair_names(t, k, v);
                assert(q[j - 1] == put_pair(t, k, v)[j - 1]);
                if q[j - 1].0 != k {
                    let m = choose|m: int| 0 <= m < t.len() && t[m].0 == q[j - 1].0;
                    assert(s[m + 1].0 == q[j - 1].0);
                }
            } else {
                assert(p[i] == q[i - 1] && p[j] == q[j - 1]);
            }
        }
    }
}

/// What putting a pair in does to reading a name: the new value for `k`, the
/// old value for every other name.
pub proof fn lemma_put_pair_value(s: Seq<(Seq<char>, Seq<char>)>, k: Seq<char>, v: Seq<char>, x: Seq<char>)
    ensures
        value_of(put_pair(s, k, v), x) == if x == k {
            Some(v)
        } else {
            value_of(s, x)
        },
    decreases s.len(),
{
    let p = put_pair(s, k, v);
    if s.len() == 0 {
        assert(p[0] == (k, v));
        assert(p.drop_first().len() == 0);
    } else if s[0].0 == k {
        assert(p[0] == (k, v));
        assert(p.drop_first() =~= s.drop_first());
        if x != k {
            assert(value_of(p, x) == value_of(p.drop_first(), x));
            assert(value_of(s, x) == value_of(s.drop_first(), x));
        }
    } else if str_lt(k, s[0].0) {
        assert(p[0] == (k, v));
        assert(p.drop_first() =~= s);
        if x != k {
            assert(value_of(p, x) == value_of(p.drop_first(), x));
        }
    } else {
        let t = s.drop_first();
        lemma_put_pair_value(t, k, v, x);
        assert(p[0] == s[0]);
        assert(p.drop_first() =~= put_pair(t, k, v));
        if s[0].0 != x {
            assert(value_of(p, x) == value_of(p.drop_first(), x));
            assert(value_of(s, x) == value_of(t, x));
        }
    }
}

/// The form parameters of a Last.fm call, kept as the pairs of a map ordered by
/// name (the order in which they are signed and sent).
pub struct FormParams {
    pairs: Vec<(String, String)>,
}

impl View for FormParams {
    type V = Seq<(Seq<char>, Seq<char>)>;

    closed spec fn view(&self) -> Seq<(Seq<char>, Seq<char>)> {
        self.pairs@.map_values(|p: (String, String)| (p.0@, p.1@))
    }
}

impl FormParams {
    /// No parameters.
    pub fn new() -> (r: FormParams)
        ensures
            r@ == Seq::<(Seq<char>, Seq<char>)>::empty(),
    {
        let r = FormParams { pairs: Vec::new() };
        assert(r@ =~= Seq::<(Seq<char>, Seq<char>)>::empty());
        r
    }

    /// The parameters in order, as name and value.
    pub fn pairs(&self) -> (r: &Vec<(String, String)>)
        ensures
            r@.map_values(|p: (String, String)| (p.0@, p.1@)) == self@,
    {
        &self.pairs
    }

    /// Sets parameter `name` to `value` (as `BTreeMap::insert` does).
    pub fn insert(&mut self, name: &str, value: String)
        ensures
            final(self)@ == put_pair(old(self)@, name@, value@),
    {
        let ghost s0 = self@;
        let k = chars_of(name);
        let mut i: usize = 0;
        let n = self.pairs.len();
        assert(s0.skip(0) =~= s0 && s0.subrange(0, 0) =~= Seq::<(Seq<char>, Seq<char>)>::empty());
        while i < n
            invariant
                n == self.pairs@.len(),
                self@ == s0,
                s0 == old(self)@,
                i <= n,
                k@ == name@,
                put_pair(s0, name@, value@) == s0.subrange(0, i as int) + put_pair(
                    s0.skip(i as int),
                    name@,
                    value@,
                ),
            decreases n - i,
        {
            let ki = chars_of(self.pairs[i].0.as_str());
            let ghost t = s0.skip(i as int);
            assert(t[0] == s0[i as int]);
            assert(s0[i as int] == (self.pairs@[i as int].0@, self.pairs@[i as int].1@));
            assert(ki@ == t[0].0);
            if crate::text::chars_eq(ki.as_slice(), k.as_slice()) {
                self.pairs.set(i, (name.to_owned(), value));
                proof {
                    assert(put_pair(t, name@, value@) == seq![(name@, value@)] + t.drop_first());
                    assert(self@ =~= s0.subrange(0, i as int) + (seq![(name@, value@)] + t.drop_first()));
                }
                return;
            }
            if str_less(k.as_slice(), ki.as_slice()) {
                self.pairs.insert(i, (name.to_owned(), value));
                proof {
                    assert(t[0].0 != name@);
                    assert(put_pair(t, name@, value@) == seq![(name@, value@)] + t);
                    assert(self@ =~= s0.subrange(0, i as int) + (seq![(name@, value@)] + t));
                }
                return;
            }
            proof {
                assert(t.drop_first() =~= s0.skip(i + 1));
                assert(s0.subrange(0, i as int) + (seq![t[0]] + put_pair(t.drop_first(), name@, value@))
                    =~= s0.subrange(0, i + 1) + put_pair(s0.skip(i + 1), name@, value@));
            }
            i = i + 1;
        }
        self.pairs.push((name.to_owned(), value));
        proof {
            assert(s0.skip(n as int).len() == 0);
            assert(s0.subrange(0, n as int) =~= s0);
            assert(self@ =~= s0.push((name@, value@)));
            assert(s0 + seq![(name@, value@)] =~= s0.push((name@, value@)));
        }
    }
}

// ─── Signing ─────────────────────────────────────────────────────────────────

/// The text that is hashed for `api_sig`: each parameter's name and value, in
/// order, skipping `format`.
pub open spec fn sign_base(s: Seq<(Seq<char>, Seq<char>)>) -> Seq<char>
    decreases s.len(),
{
    if s.len() == 0 {
        seq![]
    } else {
        sign_base(s.drop_last()) + if s.last().0 == "format"@ {
            Seq::<char>::empty()
        } else {
            s.last().0 + s.last().1
        }
    }
}

/// The `api_sig` of parameters `s` under a shared secret.
pub open spec fn signature(s: Seq<(Seq<char>, Seq<char>)>, secret: Seq<char>) -> Seq<char> {
    hex_lower(md5_of(encode_utf8_of(sign_base(s) + secret)))
}

/// The parameters of `auth.getMobileSession` before they are signed.
pub open spec fn auth_unsigned(api_key: Seq<char>, user: Seq<char>, token: Seq<char>) -> Seq<(Seq<char>, Seq<char>)> {
    put_pair(
        put_pair(
            put_pair(put_pair(seq![], "method"@, "auth.getMobileSession"@), "api_key"@, api_key),
            "username"@,
            user,
        ),
        "authToken"@,
        token,
    )
}

/// The parameters of `track.updateNowPlaying` before they are signed.
pub open spec fn now_playing_unsigned(
    api_key: Seq<char>,
    sk: Seq<char>,
    artist: Seq<char>,
    title: Seq<char>,
) -> Seq<(Seq<char>, Seq<char>)> {
    put_pair(
        put_pair(
            put_pair(
                put_pair(put_pair(seq![], "method"@, "track.updateNowPlaying"@), "api_key"@, api_key),
                "sk"@,
                sk,
            ),
            "artist"@,
            artist,
        ),
        "track"@,
        title,
    )
}

/// The parameters of `track.scrobble` before they are signed.
pub open spec fn scrobble_unsigned(
    api_key: Seq<char>,
    sk: Seq<char>,
    artist: Seq<char>,
    title: Seq<char>,
    ts: nat,
) -> Seq<(Seq<char>, Seq<char>)> {
    put_pair(
        put_pair(
            put_pair(
                put_pair(
                    put_pair(put_pair(seq![], "method"@, "track.scrobble"@), "api_key"@, api_key),
                    "sk"@,
                    sk,
                ),
                "artist[0]"@,
                artist,
            ),
            "track[0]"@,
            title,
        ),
        "timestamp[0]"@,
        decimal(ts),
    )
}

/// Unsigned parameters with `api_sig` and then `format=json` added.
pub open spec fn signed(s: Seq<(Seq<char>, Seq<char>)>, secret: Seq<char>) -> Seq<(Seq<char>, Seq<char>)> {
    put_pair(put_pair(s, "api_sig"@, signature(s, secret)), "format"@, "json"@)
}

/// Every request goes out with its parameters in name order and no name
/// twice: signing keeps a name-sorted list sorted, and so the forms of
/// signing in, now-playing and scrobbling are all sorted.
pub proof fn lemma_forms_sorted(
    api_key: Seq<char>,
    secret: Seq<char>,
    user: Seq<char>,
    token: Seq<char>,
    sk: Seq<char>,
    artist: Seq<char>,
    title: Seq<char>,
    ts: nat,
)
    ensures
        names_sorted(signed(auth_unsigned(api_key, user, token), secret)),
        names_sorted(signed(now_playing_unsigned(api_key, sk, artist, title), secret)),
        names_sorted(signed(scrobble_unsigned(api_key, sk, artist, title, ts), secret)),
{
    let e = Seq::<(Seq<char>, Seq<char>)>::empty();
    assert(names_sorted(e));
    let a1 = put_pair(e, "method"@, "auth.getMobileSession"@);
    lemma_put_pair_sorted(e, "method"@, "auth.getMobileSession"@);
    lemma_put_pair_sorted(a1, "api_key"@, api_key);
    let a2 = put_pair(a1, "api_key"@, api_key);
    lemma_put_pair_sorted(a2, "username"@, user);
    let a3 = put_pair(a2, "username"@, user);
    lemma_put_pair_sorted(a3, "authToken"@, token);
    lemma_signed_sorted(auth_unsigned(api_key, user, token), secret);

    let n1 = put_pair(e, "method"@, "track.updateNowPlaying"@);
    lemma_put_pair_sorted(e, "method"@, "track.updateNowPlaying"@);
    lemma_put_pair_sorted(n1, "api_key"@, api_key);
    let n2 = put_pair(n1, "api_key"@, api_key);
    lemma_put_pair_sorted(n2, "sk"@, sk);
    let n3 = put_pair(n2, "sk"@, sk);
    lemma_put_pair_sorted(n3, "artist"@, artist);
    let n4 = put_pair(n3, "artist"@, artist);
    lemma_put_pair_sorted(n4, "track"@, title);
    lemma_signed_sorted(now_playing_unsigned(api_key, sk, artist, title), secret);

    let s1 = put_pair(e, "method"@, "track.scrobble"@);
    lemma_put_pair_sorted(e, "method"@, "track.scrobble"@);
    lemma_put_pair_sorted(s1, "api_key"@, api_key);
    let s2 = put_pair(s1, "api_key"@, api_key);
    lemma_put_pair_sorted(s2, "sk"@, sk);
    let s3 = put_pair(s2, "sk"@, sk);
    lemma_put_pair_sorted(s3, "artist[0]"@, artist);
    let s4 = put_pair(s3, "artist[0]"@, artist);
    lemma_put_pair_sorted(s4, "track[0]"@, title);
    let s5 = put_pair(s4, "track[0]"@, title);
    lemma_put_pair_sorted(s5, "timestamp[0]"@, decimal(ts));
    lemma_signed_sorted(scrobble_unsigned(api_key, sk, artist, title, ts), secret);
}

/// Adding the signature and the format to a name-sorted list keeps it sorted.
pub proof fn lemma_signed_sorted(s: Seq<(Seq<char>, Seq<char>)>, secret: Seq<char>)
    requires
        names_sorted(s),
    ensures
        names_sorted(signed(s, secret)),
{
    lemma_put_pair_sorted(s, "api_sig"@, signature(s, secret));
    lemma_put_pair_sorted(put_pair(s, "api_sig"@, signature(s, secret)), "format"@, "json"@);
}

/// The credentials of the Last.fm scrobbler and its session once signed in.
pub struct LastfmClient {
    api_key: String,
    api_secret: String,
    pub session_key: Option<String>,
}

impl LastfmClient {
    /// A client with an API key and shared secret, not yet signed in.
    pub fn new(api_key: String, api_secret: String) -> (r: LastfmClient)
        ensures
            r.api_key() == api_key@,
            r.api_secret() == api_secret@,
            r.session() is None,
    {
        LastfmClient { api_key, api_secret, session_key: None }
    }

    /// The API key.
    pub closed spec fn api_key(&self) -> Seq<char> {
        self.api_key@
    }

    /// The shared secret.
    pub closed spec fn api_secret(&self) -> Seq<char> {
        self.api_secret@
    }

    /// The session key, once signed in.
    pub closed spec fn session(&self) -> Option<String> {
        self.session_key
    }

    /// The `api_sig` of `params`: the MD5 of every name and value but
    /// `format`, in name order, followed by the shared secret.
    pub fn sign(&self, params: &FormParams) -> (r: String)
        ensures
            r@ == signature(params@, self.api_secret()),
    {
        let ghost s = params@;
        let mut base = String::new();
        let mut i: usize = 0;
        let n = params.pairs.len();
        while i < n
            invariant
                n == params.pairs@.len(),
                s == params@,
                i <= n,
                base@ == sign_base(s.subrange(0, i as int)),
            decreases n - i,
        {
            let (k, v) = (&params.pairs[i].0, &params.pairs[i].1);
            let kc = chars_of(k.as_str());
            let skip = crate::text::str_eq_chars("format", kc.as_slice());
            if !skip {
                push_str_chars(&mut base, k.as_str());
                push_str_chars(&mut base, v.as_str());
            }
            proof {
                let t = s.subrange(0, i + 1);
                assert(t.drop_last() =~= s.subrange(0, i as int));
                assert(t.last() == s[i as int]);
                assert(s[i as int] == (k@, v@));
            }
            i = i + 1;
        }
        assert(s.subrange(0, n as int) =~= s);
        push_str_chars(&mut base, self.api_secret.as_str());
        md5_hex(base.as_str())
    }

    /// Adds `api_sig` and `format=json` to unsigned parameters.
    fn finish(&self, params: &mut FormParams)
        ensures
            final(params)@ == signed(old(params)@, self.api_secret()),
    {
        let sig = self.sign(params);
        params.insert("api_sig", sig);
        params.insert("format", "json".to_owned());
    }

    /// The form of `auth.getMobileSession`: the password's MD5 is hashed
    /// again after the user name to make the auth token.
    pub fn auth_form(&self, username: &str, password: &str) -> (r: FormParams)
        ensures
            r@ == signed(
                auth_unsigned(
                    self.api_key(),
                    username@,
                    hex_lower(
                        md5_of(encode_utf8_of(username@ + hex_lower(md5_of(encode_utf8_of(password@))))),
                    ),
                ),
                self.api_secret(),
            ),
    {
        let pw_md5 = md5_hex(password);
        let mut joined = crate::text::owned(username);
        push_str_chars(&mut joined, pw_md5.as_str());
        let token = md5_hex(joined.as_str());
        let mut p = FormParams::new();
        p.insert("method", "auth.getMobileSession".to_owned());
        p.insert("api_key", self.api_key.clone());
        p.insert("username", crate::text::owned(username));
        p.insert("authToken", token);
        self.finish(&mut p);
        p
    }

    /// The form of `track.updateNowPlaying`, or `None` before signing in.
    pub fn now_playing_form(&self, artist: &str, title: &str) -> (r: Option<FormParams>)
        ensures
            match self.session() {
                None => r is None,
                Some(sk) => r matches Some(p) && p@ == signed(
                    now_playing_unsigned(self.api_key(), sk@, artist@, title@),
                    self.api_secret(),
                ),
            },
    {
        match &self.session_key {
            None => None,
            Some(sk) => {
                let mut p = FormParams::new();
                p.insert("method", "track.updateNowPlaying".to_owned());
                p.insert("api_key", self.api_key.clone());
                p.insert("sk", sk.clone());
                p.insert("artist", crate::text::owned(artist));
                p.insert("track", crate::text::owned(title));
                self.finish(&mut p);
                Some(p)
            },
        }
    }

    /// The form of `track.scrobble` for a play that started at `timestamp`
    /// (Unix seconds), or `None` before signing in.
    pub fn scrobble_form(&self, artist: &str, title: &str, timestamp: u64) -> (r: Option<FormParams>)
        ensures
            match self.session() {
                None => r is None,
                Some(sk) => r matches Some(p) && p@ == signed(
                    scrobble_unsigned(self.api_key(), sk@, artist@, title@, timestamp as nat),
                    self.api_secret(),
                ),
            },
    {
        match &self.session_key {
            None => None,
            Some(sk) => {
                let mut ts = String::new();
                push_decimal(&mut ts, timestamp);
                let mut p = FormParams::new();
                p.insert("method", "track.scrobble".to_owned());
                p.insert("api_key", self.api_key.clone());
                p.insert("sk", sk.clone());
                p.insert("artist[0]", crate::text::owned(artist));
                p.insert("track[0]", crate::text::owned(title));
                p.insert("timestamp[0]", ts);
                self.finish(&mut p);
                Some(p)
            },
        }
    }
    /// Takes the response of `auth.getMobileSession`: its `session.key`
    /// becomes the session key (none when it has none). Whether signing in
    /// worked.
    pub fn accept_session(&mut self, resp: &Json) -> (r: bool)
        ensures
            opt_view(final(self).session()) == session_key_in(*resp),
            r == session_key_in(*resp) is Some,
            final(self).api_key() == old(self).api_key(),
            final(self).api_secret() == old(self).api_secret(),
    {
        let key = match resp.get("session") {
            Some(s) => text_of(s.get("key")),
            None => None,
        };
        self.session_key = match key {
            Some(k) => Some(k.clone()),
            None => None,
        };
        self.session_key.is_some()
    }
}

/// The session key of an `auth.getMobileSession` response: `session.key`
/// when it is a string.
pub open spec fn session_key_in(resp: Json) -> Option<Seq<char>> {
    match field(resp, "session"@) {
        Some(s) => text(field(s, "key"@)),
        None => None,
    }
}

} // verus!
