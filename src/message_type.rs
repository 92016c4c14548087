use vstd::prelude::*;

verus! {

/// Kinds of consensus messages.
#[derive(Debug, Clone, Copy, PartialEq, Eq, Structural)]
pub enum PbftMessageType {
    // Basic message types for the multicast protocol
    PrePrepare,
    Prepare,
    Commit,
    // Auxiliary messages
    BlockNew,
    Checkpoint,
    ViewChange,
    // Produced for a kind text that is not recognised
    Unset,
}

impl PbftMessageType {
    /// The kinds that take part in the three-phase multicast round.
    pub open spec fn spec_is_multicast(self) -> bool {
        self is PrePrepare || self is Prepare || self is Commit
    }

    pub fn is_multicast(&self) -> (r: bool)
        ensures
            r == self.spec_is_multicast(),
    {
        match self {
            PbftMessageType::PrePrepare | PbftMessageType::Prepare | PbftMessageType::Commit => {
                true
            },
            _ => false,
        }
    }
}

/// The name of each kind, as it is written in a message.
pub open spec fn kind_name(t: PbftMessageType) -> Seq<char> {
    match t {
        PbftMessageType::PrePrepare => "PrePrepare"@,
        PbftMessageType::Prepare => "Prepare"@,
        PbftMessageType::Commit => "Commit"@,
        PbftMessageType::BlockNew => "BlockNew"@,
        PbftMessageType::Checkpoint => "Checkpoint"@,
        PbftMessageType::ViewChange => "ViewChange"@,
        PbftMessageType::Unset => "Unset"@,
    }
}

/// The kind that a name stands for; a name of no known kind gives `Unset`.
pub open spec fn kind_of_name(s: Seq<char>) -> PbftMessageType {
    if s == "PrePrepare"@ {
        PbftMessageType::PrePrepare
    } else if s == "Prepare"@ {
        PbftMessageType::Prepare
    } else if s == "Commit"@ {
        PbftMessageType::Commit
    } else if s == "BlockNew"@ {
        PbftMessageType::BlockNew
    } else if s == "ViewChange"@ {
        PbftMessageType::ViewChange
    } else if s == "Checkpoint"@ {
        PbftMessageType::Checkpoint
    } else {
        PbftMessageType::Unset
    }
}

/// The two-character code of each kind, used in compact log lines.
pub open spec fn kind_code(t: PbftMessageType) -> Seq<char> {
    match t {
        PbftMessageType::PrePrepare => "PP"@,
        PbftMessageType::Prepare => "Pr"@,
        PbftMessageType::Commit => "Co"@,
        PbftMessageType::BlockNew => "BN"@,
        PbftMessageType::Checkpoint => "CP"@,
        PbftMessageType::ViewChange => "VC"@,
        PbftMessageType::Unset => "Un"@,
    }
}

impl PbftMessageType {
    /// Classifies a kind text. A text of no known kind gives `Unset`, which
    /// the caller must not process as any protocol step.
    pub fn from_name(s: &str) -> (r: PbftMessageType)
        ensures
            r == kind_of_name(s@),
    {
        let text = s.to_owned();
        if text == "PrePrepare".to_owned() {
            PbftMessageType::PrePrepare
        } else if text == "Prepare".to_owned() {
            PbftMessageType::Prepare
        } else if text == "Commit".to_owned() {
            PbftMessageType::Commit
        } else if text == "BlockNew".to_owned() {
            PbftMessageType::BlockNew
        } else if text == "ViewChange".to_owned() {
            PbftMessageType::ViewChange
        } else if text == "Checkpoint".to_owned() {
            PbftMessageType::Checkpoint
        } else {
            PbftMessageType::Unset
        }
    }

    /// The name of the kind, the inverse of `from_name` on every kind.
    pub fn name(&self) -> (r: String)
        ensures
            r@ == kind_name(*self),
    {
        let s: &str = match self {
            PbftMessageType::PrePrepare => "PrePrepare",
            PbftMessageType::Prepare => "Prepare",
            PbftMessageType::Commit => "Commit",
            PbftMessageType::BlockNew => "BlockNew",
            PbftMessageType::Checkpoint => "Checkpoint",
            PbftMessageType::ViewChange => "ViewChange",
            PbftMessageType::Unset => "Unset",
        };
        s.to_owned()
    }

    /// The fixed two-character rendering of the kind, for compact logs.
    pub fn to_string(&self) -> (r: String)
        ensures
            r@ == kind_code(*self),
    {
        let code: &str = match self {
            PbftMessageType::PrePrepare => "PP",
            PbftMessageType::Prepare => "Pr",
            PbftMessageType::Commit => "Co",
            PbftMessageType::BlockNew => "BN",
            PbftMessageType::Checkpoint => "CP",
            PbftMessageType::ViewChange => "VC",
            PbftMessageType::Unset => "Un",
        };
        code.to_owned()
    }
}

impl<'a> From<&'a str> for PbftMessageType {
    fn from(s: &'a str) -> (r: PbftMessageType) {
        PbftMessageType::from_name(s)
    }
}

impl<'a> vstd::std_specs::convert::FromSpecImpl<&'a str> for PbftMessageType {
    open spec fn obeys_from_spec() -> bool {
        true
    }

    open spec fn from_spec(s: &'a str) -> PbftMessageType {
        kind_of_name(s@)
    }
}

/// Naming a kind and classifying the name gives the kind back.
pub proof fn lemma_name_round_trip(t: PbftMessageType)
    ensures
        kind_of_name(kind_name(t)) == t,
{
    reveal_strlit("PrePrepare");
    reveal_strlit("Prepare");
    reveal_strlit("Commit");
    reveal_strlit("BlockNew");
    reveal_strlit("Checkpoint");
    reveal_strlit("ViewChange");
    reveal_strlit("Unset");
    assert("Prepare"@ != "PrePrepare"@) by { assert("Prepare"@[3] != "PrePrepare"@[3]); }
    assert("Unset"@ != "PrePrepare"@) by { assert("Unset"@[0] != "PrePrepare"@[0]); }
    assert("Unset"@ != "Prepare"@) by { assert("Unset"@[0] != "Prepare"@[0]); }
    assert("Unset"@ != "Commit"@) by { assert("Unset"@[0] != "Commit"@[0]); }
    assert("Unset"@ != "BlockNew"@) by { assert("Unset"@[0] != "BlockNew"@[0]); }
    assert("Unset"@ != "ViewChange"@) by { assert("Unset"@[0] != "ViewChange"@[0]); }
    assert("Unset"@ != "Checkpoint"@) by { assert("Unset"@[0] != "Checkpoint"@[0]); }
    assert("Commit"@ != "PrePrepare"@) by { assert("Commit"@[0] != "PrePrepare"@[0]); }
    assert("Commit"@ != "Prepare"@) by { assert("Commit"@[0] != "Prepare"@[0]); }
    assert("BlockNew"@ != "PrePrepare"@) by { assert("BlockNew"@[0] != "PrePrepare"@[0]); }
    assert("BlockNew"@ != "Prepare"@) by { assert("BlockNew"@[0] != "Prepare"@[0]); }
    assert("BlockNew"@ != "Commit"@) by { assert("BlockNew"@[0] != "Commit"@[0]); }
    assert("ViewChange"@ != "PrePrepare"@) by { assert("ViewChange"@[0] != "PrePrepare"@[0]); }
    assert("ViewChange"@ != "Prepare"@) by { assert("ViewChange"@[0] != "Prepare"@[0]); }
    assert("ViewChange"@ != "Commit"@) by { assert("ViewChange"@[0] != "Commit"@[0]); }
    assert("ViewChange"@ != "BlockNew"@) by { assert("ViewChange"@[0] != "BlockNew"@[0]); }
    assert("Checkpoint"@ != "PrePrepare"@) by { assert("Checkpoint"@[1] != "PrePrepare"@[1]); }
    assert("Checkpoint"@ != "Prepare"@) by { assert("Checkpoint"@[1] != "Prepare"@[1]); }
    assert("Checkpoint"@ != "Commit"@) by { assert("Checkpoint"@[1] != "Commit"@[1]); }
    assert("Checkpoint"@ != "BlockNew"@) by { assert("Checkpoint"@[0] != "BlockNew"@[0]); }
    assert("Checkpoint"@ != "ViewChange"@) by { assert("Checkpoint"@[0] != "ViewChange"@[0]); }
}

} // verus!
