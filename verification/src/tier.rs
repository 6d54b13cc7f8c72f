//! The tier catalog: the three retrieval speed classes, their metadata, a
//! total case- and whitespace-insensitive parser, and the wait policy that
//! bounds how long the poller keeps asking for a job's output.

use vstd::prelude::*;
use vstd::string::StrSliceExecFns;

verus! {

/// The whitespace the parser strips from either end: the Unicode
/// White_Space characters, the same set `str::trim` removes.
pub open spec fn is_space_spec(c: char) -> bool {
    let u = c as u32;
    (9 <= u && u <= 13) || u == 32 || u == 0x85 || u == 0xA0 || u == 0x1680 || (0x2000 <= u && u
        <= 0x200A) || u == 0x2028 || u == 0x2029 || u == 0x202F || u == 0x205F || u == 0x3000
}

/// ASCII-lowercases one character; anything but 'A'..='Z' is unchanged.
pub open spec fn lower_char(c: char) -> char {
    if 65 <= c as u32 && c as u32 <= 90 {
        ((c as u8 + 32) as u8) as char
    } else {
        c
    }
}

/// ASCII-lowercases a whole character sequence.
pub open spec fn lower_seq(s: Seq<char>) -> Seq<char> {
    s.map(|i: int, c: char| lower_char(c))
}

/// The sequence with its leading ASCII whitespace removed.
pub open spec fn trim_front(s: Seq<char>) -> Seq<char>
    decreases s.len(),
{
    if s.len() > 0 && is_space_spec(s[0]) {
        trim_front(s.drop_first())
    } else {
        s
    }
}

/// The sequence with its trailing ASCII whitespace removed.
pub open spec fn trim_back(s: Seq<char>) -> Seq<char>
    decreases s.len(),
{
    if s.len() > 0 && is_space_spec(s.last()) {
        trim_back(s.drop_last())
    } else {
        s
    }
}

/// The sequence with whitespace removed from both ends.
pub open spec fn trim_spec(s: Seq<char>) -> Seq<char> {
    trim_back(trim_front(s))
}

/// A retrieval speed/cost class, selected when a retrieval job is initiated.
#[derive(Clone, Copy, PartialEq, Eq, Structural, Debug)]
pub enum DownLoadTier {
    Expedited,
    Standard,
    Bulk,
}

impl DownLoadTier {
    /// Canonical capitalized display name. It doubles as the exact protocol
    /// value sent in the remote service's tier parameter, so it must stay
    /// one of the three strings the service recognizes.
    pub open spec fn name_spec(self) -> Seq<char> {
        match self {
            DownLoadTier::Expedited => "Expedited"@,
            DownLoadTier::Standard => "Standard"@,
            DownLoadTier::Bulk => "Bulk"@,
        }
    }

    /// Human-readable one-line summary, presentation only.
    pub open spec fn describe_spec(self) -> Seq<char> {
        match self {
            DownLoadTier::Expedited => "The fastest tier available"@,
            DownLoadTier::Standard => "The default tier"@,
            DownLoadTier::Bulk => "The slowest tier available"@,
        }
    }

    /// Informational cost expression; never parsed downstream.
    pub open spec fn cost_spec(self) -> Seq<char> {
        match self {
            DownLoadTier::Expedited => "£0.0250 / GB + £0.0105"@,
            DownLoadTier::Standard => "£0.0083 / GB + £0.0000318"@,
            DownLoadTier::Bulk => "Effectively free (Website says £0)"@,
        }
    }

    /// What `parse` returns: the tier whose lowercase name equals the
    /// trimmed, lowercased input, or nothing when no tier matches.
    pub open spec fn parse_spec(s: Seq<char>) -> Option<DownLoadTier> {
        let t = lower_seq(trim_spec(s));
        if t == "expedited"@ {
            Some(DownLoadTier::Expedited)
        } else if t == "standard"@ {
            Some(DownLoadTier::Standard)
        } else if t == "bulk"@ {
            Some(DownLoadTier::Bulk)
        } else {
            None
        }
    }

    /// Compares the input against the three tier names, ignoring case and
    /// surrounding whitespace; any other input yields `None`, never an error.
    pub fn parse(input: &str) -> (r: Option<DownLoadTier>)
        ensures
            r == DownLoadTier::parse_spec(input@),
    {
        let n = input.unicode_len();
        let mut i: usize = 0;
        while i < n && is_space(input.get_char(i))
            invariant
                i <= n,
                n == input@.len(),
                forall|k: int| 0 <= k < i ==> is_space_spec(input@[k]),
            decreases n - i,
        {
            i = i + 1;
        }
        let mut j: usize = n;
        while j > i && is_space(input.get_char(j - 1))
            invariant
                i <= j <= n,
                n == input@.len(),
                forall|k: int| j <= k < n ==> is_space_spec(input@[k]),
            decreases j,
        {
            j = j - 1;
        }
        proof {
            lemma_trim_is_subrange(input@, i as int, j as int);
        }
        if region_matches_lower(input, i, j, "expedited") {
            Some(DownLoadTier::Expedited)
        } else if region_matches_lower(input, i, j, "standard") {
            Some(DownLoadTier::Standard)
        } else if region_matches_lower(input, i, j, "bulk") {
            Some(DownLoadTier::Bulk)
        } else {
            None
        }
    }

    /// Returns the canonical display name of this tier.
    pub fn name(&self) -> (r: String)
        ensures
            r@ == self.name_spec(),
    {
        match self {
            DownLoadTier::Expedited => "Expedited".to_owned(),
            DownLoadTier::Standard => "Standard".to_owned(),
            DownLoadTier::Bulk => "Bulk".to_owned(),
        }
    }

    /// Returns the one-line human description of this tier.
    pub fn describe(&self) -> (r: String)
        ensures
            r@ == self.describe_spec(),
    {
        match self {
            DownLoadTier::Expedited => "The fastest tier available".to_owned(),
            DownLoadTier::Standard => "The default tier".to_owned(),
            DownLoadTier::Bulk => "The slowest tier available".to_owned(),
        }
    }

    /// Returns the formatted cost expression for this tier.
    pub fn cost(&self) -> (r: String)
        ensures
            r@ == self.cost_spec(),
    {
        match self {
            DownLoadTier::Expedited => "£0.0250 / GB + £0.0105".to_owned(),
            DownLoadTier::Standard => "£0.0083 / GB + £0.0000318".to_owned(),
            DownLoadTier::Bulk => "Effectively free (Website says £0)".to_owned(),
        }
    }

    /// How many output-fetch attempts the poller may make for this tier
    /// before giving up: expedited jobs are expected ready within minutes,
    /// standard within hours, bulk within about half a day.
    pub open spec fn max_poll_attempts_spec(self) -> u64 {
        match self {
            DownLoadTier::Expedited => 60,
            DownLoadTier::Standard => 72,
            DownLoadTier::Bulk => 84,
        }
    }

    /// Returns the poll attempt budget for this tier.
    pub fn max_poll_attempts(&self) -> (r: u64)
        ensures
            r == self.max_poll_attempts_spec(),
            r > 0,
    {
        match self {
            DownLoadTier::Expedited => 60,
            DownLoadTier::Standard => 72,
            DownLoadTier::Bulk => 84,
        }
    }

    /// Seconds the caller should wait between consecutive fetch attempts.
    pub open spec fn poll_interval_secs_spec(self) -> u64 {
        match self {
            DownLoadTier::Expedited => 30,
            DownLoadTier::Standard => 300,
            DownLoadTier::Bulk => 600,
        }
    }

    /// Returns the wait interval, in seconds, between fetch attempts.
    pub fn poll_interval_secs(&self) -> (r: u64)
        ensures
            r == self.poll_interval_secs_spec(),
            r > 0,
    {
        match self {
            DownLoadTier::Expedited => 30,
            DownLoadTier::Standard => 300,
            DownLoadTier::Bulk => 600,
        }
    }
}

fn is_space(c: char) -> (r: bool)
    ensures
        r == is_space_spec(c),
{
    let u = c as u32;
    (9 <= u && u <= 13) || u == 32 || u == 0x85 || u == 0xA0 || u == 0x1680 || (0x2000 <= u && u
        <= 0x200A) || u == 0x2028 || u == 0x2029 || u == 0x202F || u == 0x205F || u == 0x3000
}

fn to_lower_char(c: char) -> (r: char)
    ensures
        r == lower_char(c),
{
    let u = c as u32;
    if 65 <= u && u <= 90 {
        let b = c as u8;
        (b + 32) as char
    } else {
        c
    }
}

/// True exactly when the lowercased region `[i, j)` of `s` equals `name`,
/// which is expected to be already lowercase.
fn region_matches_lower(s: &str, i: usize, j: usize, name: &str) -> (r: bool)
    requires
        i <= j <= s@.len(),
    ensures
        r == (lower_seq(s@.subrange(i as int, j as int)) == name@),
{
    let ghost region = s@.subrange(i as int, j as int);
    let len = name.unicode_len();
    if j - i != len {
        proof {
            assert(lower_seq(region).len() == region.len());
        }
        return false;
    }
    let mut k: usize = 0;
    while k < len
        invariant
            i <= j <= s@.len(),
            j - i == len,
            len == name@.len(),
            k <= len,
            region == s@.subrange(i as int, j as int),
            forall|t: int| 0 <= t < k ==> lower_char(region[t]) == name@[t],
        decreases len - k,
    {
        let c = to_lower_char(s.get_char(i + k));
        let e = name.get_char(k);
        if c != e {
            proof {
                assert(region[k as int] == s@[i + k]);
                assert(lower_seq(region)[k as int] == lower_char(region[k as int]));
            }
            return false;
        }
        proof {
            assert(region[k as int] == s@[i + k]);
        }
        k = k + 1;
    }
    proof {
        assert(lower_seq(region) =~= name@);
    }
    true
}

proof fn lemma_trim_front_skip(s: Seq<char>, i: int)
    requires
        0 <= i <= s.len(),
        forall|k: int| 0 <= k < i ==> is_space_spec(s[k]),
    ensures
        trim_front(s) == trim_front(s.skip(i)),
    decreases i,
{
    if i > 0 {
        assert(is_space_spec(s[0]));
        assert(s.drop_first() =~= s.skip(1));
        lemma_trim_front_skip(s.drop_first(), i - 1);
        assert(s.drop_first().skip(i - 1) =~= s.skip(i));
    } else {
        assert(s.skip(0) =~= s);
    }
}

proof fn lemma_trim_back_take(s: Seq<char>, j: int)
    requires
        0 <= j <= s.len(),
        forall|k: int| j <= k < s.len() ==> is_space_spec(s[k]),
    ensures
        trim_back(s) == trim_back(s.take(j)),
    decreases s.len() - j,
{
    if j < s.len() {
        assert(is_space_spec(s.last()));
        assert(s.drop_last() =~= s.take(s.len() - 1));
        lemma_trim_back_take(s.drop_last(), j);
        assert(s.drop_last().take(j) =~= s.take(j));
    } else {
        assert(s.take(s.len() as int) =~= s);
    }
}

/// If every character before `i` and from `j` on is whitespace, and the
/// boundary characters are not, trimming yields exactly the region `[i, j)`.
proof fn lemma_trim_is_subrange(s: Seq<char>, i: int, j: int)
    requires
        0 <= i <= j <= s.len(),
        forall|k: int| 0 <= k < i ==> is_space_spec(s[k]),
        forall|k: int| j <= k < s.len() ==> is_space_spec(s[k]),
        i == j || (!is_space_spec(s[i]) && !is_space_spec(s[j - 1])),
    ensures
        trim_spec(s) == s.subrange(i, j),
{
    if i == j {
        lemma_trim_front_skip(s, s.len() as int);
        assert(s.skip(s.len() as int) =~= Seq::<char>::empty());
        assert(trim_front(s) == Seq::<char>::empty());
        assert(trim_back(Seq::<char>::empty()) == Seq::<char>::empty());
        assert(s.subrange(i, j) =~= Seq::<char>::empty());
    } else {
        lemma_trim_front_skip(s, i);
        let rest = s.skip(i);
        assert(rest[0] == s[i]);
        assert(!is_space_spec(rest[0]));
        assert(trim_front(rest) == rest);
        lemma_trim_back_take(rest, j - i);
        let region = rest.take(j - i);
        assert(region =~= s.subrange(i, j));
        assert(region.last() == s[j - 1]);
        assert(!is_space_spec(region.last()));
        assert(trim_back(region) == region);
    }
}

/// The lowercase of each canonical tier name is the string `parse` accepts
/// for that tier, and trimming a canonical name leaves it unchanged.
proof fn lemma_canonical_names()
    ensures
        trim_spec("Expedited"@) == "Expedited"@,
        trim_spec("Standard"@) == "Standard"@,
        trim_spec("Bulk"@) == "Bulk"@,
        lower_seq("Expedited"@) == "expedited"@,
        lower_seq("Standard"@) == "standard"@,
        lower_seq("Bulk"@) == "bulk"@,
        "expedited"@.len() == 9,
        "standard"@.len() == 8,
        "bulk"@.len() == 4,
{
    reveal_strlit("Expedited");
    reveal_strlit("Standard");
    reveal_strlit("Bulk");
    reveal_strlit("expedited");
    reveal_strlit("standard");
    reveal_strlit("bulk");
    lemma_trim_is_subrange("Expedited"@, 0, 9);
    assert("Expedited"@.subrange(0, 9) =~= "Expedited"@);
    lemma_trim_is_subrange("Standard"@, 0, 8);
    assert("Standard"@.subrange(0, 8) =~= "Standard"@);
    lemma_trim_is_subrange("Bulk"@, 0, 4);
    assert("Bulk"@.subrange(0, 4) =~= "Bulk"@);
    assert(lower_seq("Expedited"@) =~= "expedited"@);
    assert(lower_seq("Standard"@) =~= "standard"@);
    assert(lower_seq("Bulk"@) =~= "bulk"@);
}

/// Parsing is insensitive to case and surrounding whitespace: an input maps
/// to a tier exactly when its trimmed, lowercased form equals the lowercased
/// canonical name of that tier.
pub proof fn lemma_parse_case_whitespace_insensitive(s: Seq<char>, t: DownLoadTier)
    ensures
        DownLoadTier::parse_spec(s) == Some(t) <==> lower_seq(trim_spec(s)) == lower_seq(
            t.name_spec(),
        ),
{
    lemma_canonical_names();
}

/// Every canonical tier name parses back to its own tier.
pub proof fn lemma_name_parse_round_trip(t: DownLoadTier)
    ensures
        DownLoadTier::parse_spec(t.name_spec()) == Some(t),
{
    lemma_canonical_names();
}

/// The catalog is total: every tier has a non-empty name, description and
/// cost expression.
pub proof fn lemma_catalog_nonempty(t: DownLoadTier)
    ensures
        t.name_spec().len() > 0,
        t.describe_spec().len() > 0,
        t.cost_spec().len() > 0,
{
    reveal_strlit("Expedited");
    reveal_strlit("Standard");
    reveal_strlit("Bulk");
    reveal_strlit("The fastest tier available");
    reveal_strlit("The default tier");
    reveal_strlit("The slowest tier available");
    reveal_strlit("£0.0250 / GB + £0.0105");
    reveal_strlit("£0.0083 / GB + £0.0000318");
    reveal_strlit("Effectively free (Website says £0)");
}

} // verus!
