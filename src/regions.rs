use vstd::prelude::*;

verus! {

/// A host label: a nonempty run of lowercase ASCII letters and digits.
/// In particular it holds no `.`, so prefixing it to a host adds exactly one dot.
pub open spec fn is_host_label(l: Seq<char>) -> bool {
    &&& l.len() > 0
    &&& forall|i: int|
        0 <= i < l.len() ==> (('a' <= #[trigger] l[i] && l[i] <= 'z') || ('0' <= l[i] && l[i] <= '9'))
}

/// The host that a routing value resolves to on top of a base host.
pub open spec fn resolved_host(label: Seq<char>, hostname: Seq<char>) -> Seq<char> {
    label + seq!['.'] + hostname
}

/// A routing value: something that selects the upstream host a request goes to.
pub trait WithHosts {
    /// The fixed label that this routing value puts in front of the base host.
    spec fn host_label(&self) -> Seq<char>;

    /// The host for this routing value: `<label>.<hostname>`.
    fn host(&self, hostname: &str) -> (r: String)
        ensures
            r@ == resolved_host(self.host_label(), hostname@),
            is_host_label(self.host_label()),
    ;
}

/// Builds `<label>.<hostname>` from a literal label.
fn prefixed_host(label: &str, hostname: &str) -> (r: String)
    ensures
        r@ == resolved_host(label@, hostname@),
{
    let mut s = label.to_owned();
    s.append(".");
    s.append(hostname);
    proof {
        reveal_strlit(".");
    }
    s
}

/// A broad geographic region.
#[derive(Clone, Copy, Debug, PartialEq, Eq, Structural)]
pub enum Regions {
    Americas,
    Asia,
    Europe,
}

/// A specific game-server platform.
#[derive(Clone, Copy, Debug, PartialEq, Eq, Structural)]
pub enum Platforms {
    Br1,
    Eun1,
    Euw1,
    Jp1,
    Kr,
    La1,
    La2,
    Na1,
    Oc1,
    Tr1,
    Ru,
}

impl Regions {
    pub open spec fn label(self) -> Seq<char> {
        match self {
            Regions::Americas => "americas"@,
            Regions::Asia => "asia"@,
            Regions::Europe => "europe"@,
        }
    }

    proof fn lemma_label(self)
        ensures
            is_host_label(self.label()),
    {
        reveal_strlit("americas");
        reveal_strlit("asia");
        reveal_strlit("europe");
    }
}

impl WithHosts for Regions {
    open spec fn host_label(&self) -> Seq<char> {
        self.label()
    }

    fn host(&self, hostname: &str) -> (r: String) {
        proof {
            self.lemma_label();
        }
        match *self {
            Regions::Americas => prefixed_host("americas", hostname),
            Regions::Asia => prefixed_host("asia", hostname),
            Regions::Europe => prefixed_host("europe", hostname),
        }
    }
}

impl Platforms {
    pub open spec fn label(self) -> Seq<char> {
        match self {
            Platforms::Br1 => "br1"@,
            Platforms::Eun1 => "eun1"@,
            Platforms::Euw1 => "euw1"@,
            Platforms::Jp1 => "jp1"@,
            Platforms::Kr => "kr"@,
            Platforms::La1 => "la1"@,
            Platforms::La2 => "la2"@,
            Platforms::Na1 => "na1"@,
            Platforms::Oc1 => "oc1"@,
            Platforms::Tr1 => "tr1"@,
            Platforms::Ru => "ru"@,
        }
    }

    proof fn lemma_label(self)
        ensures
            is_host_label(self.label()),
    {
        reveal_strlit("br1");
        reveal_strlit("eun1");
        reveal_strlit("euw1");
        reveal_strlit("jp1");
        reveal_strlit("kr");
        reveal_strlit("la1");
        reveal_strlit("la2");
        reveal_strlit("na1");
        reveal_strlit("oc1");
        reveal_strlit("tr1");
        reveal_strlit("ru");
    }
}

impl WithHosts for Platforms {
    open spec fn host_label(&self) -> Seq<char> {
        self.label()
    }

    fn host(&self, hostname: &str) -> (r: String) {
        proof {
            self.lemma_label();
        }
        match *self {
            Platforms::Br1 => prefixed_host("br1", hostname),
            Platforms::Eun1 => prefixed_host("eun1", hostname),
            Platforms::Euw1 => prefixed_host("euw1", hostname),
            Platforms::Jp1 => prefixed_host("jp1", hostname),
            Platforms::Kr => prefixed_host("kr", hostname),
            Platforms::La1 => prefixed_host("la1", hostname),
            Platforms::La2 => prefixed_host("la2", hostname),
            Platforms::Na1 => prefixed_host("na1", hostname),
            Platforms::Oc1 => prefixed_host("oc1", hostname),
            Platforms::Tr1 => prefixed_host("tr1", hostname),
            Platforms::Ru => prefixed_host("ru", hostname),
        }
    }
}

} // verus!
