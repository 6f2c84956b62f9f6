//! The categories of node operation that can be given a timeout of their
//! own, and the table that holds those timeouts.

use crate::error::ConfigError;
use vstd::prelude::*;

verus! {

/// A category of operation that the client performs against a node.
#[derive(Clone, Copy, Debug, PartialEq, Eq, Hash, Structural)]
pub enum Api {
    Quorum,
    NodeHealth,
    NodeInfo,
    Peers,
    Tips,
    SendMessage,
    SendMessageRemotePow,
    Output,
    Milestone,
    Message,
    Balance,
}

/// How many categories there are.
pub const API_COUNT: usize = 11;

impl Api {
    /// The position of a category in the enumeration.
    pub open spec fn spec_index(self) -> int {
        match self {
            Api::Quorum => 0,
            Api::NodeHealth => 1,
            Api::NodeInfo => 2,
            Api::Peers => 3,
            Api::Tips => 4,
            Api::SendMessage => 5,
            Api::SendMessageRemotePow => 6,
            Api::Output => 7,
            Api::Milestone => 8,
            Api::Message => 9,
            Api::Balance => 10,
        }
    }

    /// The category at a position, for positions below `API_COUNT`.
    pub open spec fn spec_at(index: int) -> Api {
        if index == 0 {
            Api::Quorum
        } else if index == 1 {
            Api::NodeHealth
        } else if index == 2 {
            Api::NodeInfo
        } else if index == 3 {
            Api::Peers
        } else if index == 4 {
            Api::Tips
        } else if index == 5 {
            Api::SendMessage
        } else if index == 6 {
            Api::SendMessageRemotePow
        } else if index == 7 {
            Api::Output
        } else if index == 8 {
            Api::Milestone
        } else if index == 9 {
            Api::Message
        } else {
            Api::Balance
        }
    }

    /// The name under which a category is known to callers that hold text
    /// rather than a value of this type.
    pub open spec fn spec_name(self) -> Seq<char> {
        match self {
            Api::Quorum => "quorum"@,
            Api::NodeHealth => "node-health"@,
            Api::NodeInfo => "node-info"@,
            Api::Peers => "peers"@,
            Api::Tips => "tips"@,
            Api::SendMessage => "send-message"@,
            Api::SendMessageRemotePow => "send-message-remote-pow"@,
            Api::Output => "output"@,
            Api::Milestone => "milestone"@,
            Api::Message => "message"@,
            Api::Balance => "balance"@,
        }
    }

    /// Whether `name` is the name of some category.
    pub open spec fn is_name(name: Seq<char>) -> bool {
        exists|api: Api| #[trigger] api.spec_name() == name
    }

    /// The category that `name` names, where it names one.
    pub open spec fn named(name: Seq<char>) -> Api {
        choose|api: Api| #[trigger] api.spec_name() == name
    }

    /// Positions and categories correspond one to one.
    pub proof fn lemma_index_round_trip(self)
        ensures
            0 <= self.spec_index() < API_COUNT,
            Api::spec_at(self.spec_index()) == self,
    {
    }

    /// Below `API_COUNT`, every position is the position of its category.
    pub proof fn lemma_at_round_trip(index: int)
        requires
            0 <= index < API_COUNT,
        ensures
            Api::spec_at(index).spec_index() == index,
    {
    }

    /// No two categories share a name.
    pub proof fn lemma_name_identifies(self, other: Api)
        ensures
            self.spec_name() == other.spec_name() <==> self == other,
    {
        reveal_strlit("quorum");
        reveal_strlit("node-health");
        reveal_strlit("node-info");
        reveal_strlit("peers");
        reveal_strlit("tips");
        reveal_strlit("send-message");
        reveal_strlit("send-message-remote-pow");
        reveal_strlit("output");
        reveal_strlit("milestone");
        reveal_strlit("message");
        reveal_strlit("balance");
        if self != other && self.spec_name() == other.spec_name() {
            assert(self.spec_name().len() == other.spec_name().len());
            assert(self.spec_name()[0] == other.spec_name()[0]);
        }
    }

    pub fn index(self) -> (index: usize)
        ensures
            index == self.spec_index(),
            index < API_COUNT,
    {
        match self {
            Api::Quorum => 0,
            Api::NodeHealth => 1,
            Api::NodeInfo => 2,
            Api::Peers => 3,
            Api::Tips => 4,
            Api::SendMessage => 5,
            Api::SendMessageRemotePow => 6,
            Api::Output => 7,
            Api::Milestone => 8,
            Api::Message => 9,
            Api::Balance => 10,
        }
    }

    /// The category at `index`, or `None` from `API_COUNT` on.
    pub fn at(index: usize) -> (api: Option<Api>)
        ensures
            index < API_COUNT ==> api == Some(Api::spec_at(index as int)),
            index >= API_COUNT ==> api is None,
    {
        match index {
            0 => Some(Api::Quorum),
            1 => Some(Api::NodeHealth),
            2 => Some(Api::NodeInfo),
            3 => Some(Api::Peers),
            4 => Some(Api::Tips),
            5 => Some(Api::SendMessage),
            6 => Some(Api::SendMessageRemotePow),
            7 => Some(Api::Output),
            8 => Some(Api::Milestone),
            9 => Some(Api::Message),
            10 => Some(Api::Balance),
            _ => None,
        }
    }

    pub fn name(self) -> (name: &'static str)
        ensures
            name@ == self.spec_name(),
    {
        match self {
            Api::Quorum => "quorum",
            Api::NodeHealth => "node-health",
            Api::NodeInfo => "node-info",
            Api::Peers => "peers",
            Api::Tips => "tips",
            Api::SendMessage => "send-message",
            Api::SendMessageRemotePow => "send-message-remote-pow",
            Api::Output => "output",
            Api::Milestone => "milestone",
            Api::Message => "message",
            Api::Balance => "balance",
        }
    }

    /// Finds the category that `name` names. A text that names none is
    /// handed back in the error.
    pub fn from_name(name: &str) -> (found: Result<Api, ConfigError>)
        ensures
            match found {
                Ok(api) => Api::is_name(name@) && api == Api::named(name@),
                Err(error) => !Api::is_name(name@) && error@
                    == crate::error::ConfigErrorView::UnrecognizedApiCategory(name@),
            },
    {
        let wanted = name.to_owned();
        let mut index: usize = 0;
        while index < API_COUNT
            invariant
                index <= API_COUNT,
                wanted@ == name@,
                forall|seen: int|
                    0 <= seen < index ==> (#[trigger] Api::spec_at(seen)).spec_name() != name@,
            decreases API_COUNT - index,
        {
            let api = Api::at(index).unwrap();
            if api.name().to_owned() == wanted {
                proof {
                    api.lemma_name_identifies(Api::named(name@));
                }
                return Ok(api);
            }
            index = index + 1;
        }
        proof {
            assert forall|api: Api| #[trigger] api.spec_name() != name@ by {
                api.lemma_index_round_trip();
            }
        }
        Err(ConfigError::UnrecognizedApiCategory(wanted))
    }
}

} // verus!
