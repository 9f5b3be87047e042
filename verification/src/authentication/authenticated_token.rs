use vstd::prelude::*;

verus! {

/// The last `:`-separated segment of a group name: what follows the last
/// `:`, or the whole name when it holds none.
pub open spec fn last_segment(s: Seq<char>) -> Seq<char>
    decreases s.len(),
{
    if s.len() == 0 {
        s
    } else if s.last() == ':' {
        Seq::empty()
    } else {
        last_segment(s.drop_last()).push(s.last())
    }
}

/// The views of a list of strings.
pub open spec fn string_views(v: Seq<String>) -> Seq<Seq<char>> {
    v.map_values(|s: String| s@)
}

/// The claims carried by a verified identity token.
#[derive(Debug, Clone)]
pub struct Claims {
    groups: Vec<String>,
    email: String,
    email_verified: bool,
    sub: String,
    iss: String,
}

impl Claims {
    /// Builds the claims from their parts.
    pub fn new(groups: Vec<String>, email: String, email_verified: bool, sub: String, iss: String) -> (c: Self)
        ensures
            c.spec_groups() == groups@,
            c.spec_email() == email@,
            c.spec_email_verified() == email_verified,
            c.spec_sub() == sub@,
            c.spec_iss() == iss@,
    {
        Claims { groups, email, email_verified, sub, iss }
    }

    pub closed spec fn spec_groups(&self) -> Seq<String> {
        self.groups@
    }

    pub closed spec fn spec_email(&self) -> Seq<char> {
        self.email@
    }

    pub closed spec fn spec_email_verified(&self) -> bool {
        self.email_verified
    }

    pub closed spec fn spec_sub(&self) -> Seq<char> {
        self.sub@
    }

    pub closed spec fn spec_iss(&self) -> Seq<char> {
        self.iss@
    }
}

/// A token whose signature, issuer and audience have been checked.
#[derive(Debug, Clone)]
pub struct AuthenticatedToken {
    /// The claims on the authenticated token
    claims: Claims,
}

impl AuthenticatedToken {
    /// The claims of the token.
    pub closed spec fn spec_claims(&self) -> Claims {
        self.claims
    }

    /// The group names of the token, as character sequences.
    pub open spec fn group_names(&self) -> Seq<Seq<char>> {
        string_views(self.spec_claims().spec_groups())
    }

    pub fn new(claims: Claims) -> (t: Self)
        ensures
            t.spec_claims() == claims,
    {
        Self { claims }
    }

    pub fn sub(&self) -> (s: &str)
        ensures
            s@ == self.spec_claims().spec_sub(),
    {
        self.claims.sub.as_str()
    }

    pub fn iss(&self) -> (s: &str)
        ensures
            s@ == self.spec_claims().spec_iss(),
    {
        self.claims.iss.as_str()
    }

    pub fn email(&self) -> (s: &str)
        ensures
            s@ == self.spec_claims().spec_email(),
    {
        self.claims.email.as_str()
    }

    pub fn email_verified(&self) -> (b: bool)
        ensures
            b == self.spec_claims().spec_email_verified(),
    {
        self.claims.email_verified
    }

    pub fn groups(&self) -> (g: &[String])
        ensures
            g@ == self.spec_claims().spec_groups(),
    {
        self.claims.groups.as_slice()
    }

    /// Appends a group to the token's groups; the other claims stay.
    pub fn add_group(&mut self, group: String)
        ensures
            final(self).spec_claims().spec_groups() == old(self).spec_claims().spec_groups().push(group),
            final(self).spec_claims().spec_email() == old(self).spec_claims().spec_email(),
            final(self).spec_claims().spec_email_verified() == old(self).spec_claims().spec_email_verified(),
            final(self).spec_claims().spec_sub() == old(self).spec_claims().spec_sub(),
            final(self).spec_claims().spec_iss() == old(self).spec_claims().spec_iss(),
    {
        self.claims.groups.push(group)
    }

    /// Replaces each group name by its last `:`-separated segment, so that
    /// `"org:team:admin"` becomes `"admin"`; the other claims stay.
    pub fn normalize_groups(&mut self)
        ensures
            final(self).group_names() == old(self).group_names().map_values(
                |g: Seq<char>| last_segment(g),
            ),
            final(self).spec_claims().spec_email() == old(self).spec_claims().spec_email(),
            final(self).spec_claims().spec_email_verified() == old(self).spec_claims().spec_email_verified(),
            final(self).spec_claims().spec_sub() == old(self).spec_claims().spec_sub(),
            final(self).spec_claims().spec_iss() == old(self).spec_claims().spec_iss(),
    {
        let mut normalized: Vec<String> = Vec::new();
        let n = self.claims.groups.len();
        for i in 0..n
            invariant
                n == self.claims.groups.len(),
                normalized.len() == i,
                forall|j: int| 0 <= j < i ==> #[trigger] normalized@[j]@ == last_segment(self.claims.groups@[j]@),
        {
            let segment = last_segment_of(self.claims.groups[i].as_str());
            normalized.push(segment);
        }
        self.claims.groups = normalized;
        proof {
            assert(final(self).group_names() =~= old(self).group_names().map_values(
                |g: Seq<char>| last_segment(g),
            ));
        }
    }
}

proof fn lemma_last_segment_step(s: Seq<char>, i: int, start: int)
    requires
        0 <= start <= i < s.len(),
        last_segment(s.take(i)) == s.subrange(start, i),
    ensures
        s[i] == ':' ==> last_segment(s.take(i + 1)) == s.subrange(i + 1, i + 1),
        s[i] != ':' ==> last_segment(s.take(i + 1)) == s.subrange(start, i + 1),
{
    assert(s.take(i + 1).drop_last() =~= s.take(i));
    assert(s.take(i + 1).last() == s[i]);
    assert(s.subrange(start, i).push(s[i]) =~= s.subrange(start, i + 1));
    assert(s.subrange(i + 1, i + 1) =~= Seq::<char>::empty());
}

/// The last `:`-separated segment of `s`, as a new string.
fn last_segment_of(s: &str) -> (r: String)
    ensures
        r@ == last_segment(s@),
{
    let n = s.unicode_len();
    let mut start: usize = 0;
    let mut i: usize = 0;
    assert(s@.take(0) =~= Seq::<char>::empty());
    while i < n
        invariant
            n == s@.len(),
            start <= i <= n,
            last_segment(s@.take(i as int)) == s@.subrange(start as int, i as int),
        decreases n - i,
    {
        proof {
            lemma_last_segment_step(s@, i as int, start as int);
        }
        if s.get_char(i) == ':' {
            start = i + 1;
        }
        i = i + 1;
    }
    assert(s@.take(n as int) =~= s@);
    s.substring_char(start, n).to_owned()
}

/// The last segment of a name holds no `:`.
pub proof fn lemma_last_segment_has_no_colon(s: Seq<char>)
    ensures
        !last_segment(s).contains(':'),
    decreases s.len(),
{
    if s.len() > 0 && s.last() != ':' {
        lemma_last_segment_has_no_colon(s.drop_last());
        let prefix = last_segment(s.drop_last());
        assert forall|i: int| 0 <= i < prefix.push(s.last()).len() implies prefix.push(s.last())[i] != ':' by {
            if i < prefix.len() {
                assert(prefix[i] == prefix.push(s.last())[i]);
            }
        }
    }
}

/// A name without `:` is its own last segment.
pub proof fn lemma_last_segment_of_plain(s: Seq<char>)
    requires
        !s.contains(':'),
    ensures
        last_segment(s) == s,
    decreases s.len(),
{
    if s.len() > 0 {
        assert(s.last() == s[s.len() - 1]);
        assert(!s.drop_last().contains(':')) by {
            assert forall|i: int| 0 <= i < s.drop_last().len() implies s.drop_last()[i] != ':' by {
                assert(s.drop_last()[i] == s[i]);
            }
        }
        lemma_last_segment_of_plain(s.drop_last());
        assert(s.drop_last().push(s.last()) =~= s);
    }
}

/// Normalizing group names twice gives what normalizing once gives.
pub proof fn lemma_normalize_groups_idempotent(groups: Seq<Seq<char>>)
    ensures
        groups.map_values(|g: Seq<char>| last_segment(g)).map_values(|g: Seq<char>| last_segment(g))
            == groups.map_values(|g: Seq<char>| last_segment(g)),
{
    let once = groups.map_values(|g: Seq<char>| last_segment(g));
    let twice = once.map_values(|g: Seq<char>| last_segment(g));
    assert forall|i: int| 0 <= i < once.len() implies twice[i] == once[i] by {
        lemma_last_segment_has_no_colon(groups[i]);
        lemma_last_segment_of_plain(once[i]);
    }
    assert(twice =~= once);
}

} // verus!
