//! What callers hand to the contract and what it hands back.

use crate::chain::fits_in_key;
use crate::ledger::key_fits;
use crate::state::{GameMove, GameState};
use vstd::prelude::*;

verus! {

/// Sets the contract up. The caller becomes its administrator.
#[derive(Clone, Debug, PartialEq)]
pub struct InstantiateMsg {}

/// The commands that change the ledger.
#[derive(Clone, Debug, PartialEq)]
pub enum ExecuteMsg {
    /// The caller hosts a match against `opponent` and commits `host_move`.
    StartGame { opponent: String, host_move: GameMove },
    /// The administrator hands the role to `admin`.
    UpdateAdmin { admin: String },
    /// The administrator bars `hook_address` from hosting.
    AddHook { hook_address: String },
    /// The administrator lifts the bar on `hook_address`.
    RemoveHook { hook_address: String },
    /// The second move of the match of `host_address` against
    /// `opponent_address`.
    OpponentMove { host_address: String, opponent_address: String, opponent_move: GameMove },
}

/// The questions that read the ledger.
#[derive(Clone, Debug, PartialEq)]
pub enum QueryMsg {
    /// The match of `host_address` against `opponent_address`.
    GetGame { host_address: String, opponent_address: String },
    /// Every match that `host_address` hosts.
    GetGameByHost { host_address: String },
    /// Every match in which `opponent_address` is the opponent.
    GetGameByOpponent { opponent_address: String },
    /// The current administrator.
    GetAdmin {},
}

/// The answer to a `QueryMsg`.
#[derive(Clone, Debug, PartialEq)]
pub enum QueryResponse {
    Game(GameState),
    Games(Vec<GameState>),
    Admin(String),
}

/// Who sent a command: an identity short enough to be the host of a match.
#[derive(Debug, PartialEq)]
pub struct MessageInfo {
    sender: String,
}

impl View for MessageInfo {
    type V = Seq<char>;

    /// The sender.
    closed spec fn view(&self) -> Seq<char> {
        self.sender@
    }
}

impl Clone for MessageInfo {
    fn clone(&self) -> (r: MessageInfo)
        ensures
            r@ == self@,
    {
        proof {
            use_type_invariant(self);
        }
        MessageInfo { sender: self.sender.clone() }
    }
}

impl MessageInfo {
    /// The sender fits in a key of the store.
    #[verifier::type_invariant]
    pub closed spec fn inv(self) -> bool {
        fits_in_key(self.sender@)
    }

    /// The command's sender, if `sender` is short enough to be one.
    pub fn new(sender: String) -> (r: Option<MessageInfo>)
        ensures
            r is Some <==> fits_in_key(sender@),
            r matches Some(info) ==> info@ == sender@,
    {
        if key_fits(sender.as_str()) {
            Some(MessageInfo { sender })
        } else {
            None
        }
    }

    /// The sender, who fits in a key of the store.
    pub fn sender(&self) -> (r: &String)
        ensures
            r@ == self@,
            fits_in_key(self@),
    {
        proof {
            use_type_invariant(self);
        }
        &self.sender
    }
}

/// A key and a value that a command reports back.
#[derive(Clone, Debug, PartialEq)]
pub struct Attribute {
    pub key: String,
    pub value: String,
}

/// What a command that succeeded reports back.
#[derive(Clone, Debug, PartialEq)]
pub struct Response {
    pub attributes: Vec<Attribute>,
}

impl View for Attribute {
    type V = (Seq<char>, Seq<char>);

    open spec fn view(&self) -> (Seq<char>, Seq<char>) {
        (self.key@, self.value@)
    }
}

impl View for Response {
    type V = Seq<(Seq<char>, Seq<char>)>;

    open spec fn view(&self) -> Seq<(Seq<char>, Seq<char>)> {
        Seq::new(self.attributes@.len(), |i: int| self.attributes@[i]@)
    }
}

impl Response {
    /// A response without attributes.
    pub fn new() -> (r: Response)
        ensures
            r@ == Seq::<(Seq<char>, Seq<char>)>::empty(),
    {
        let r = Response { attributes: Vec::new() };
        assert(r@ =~= Seq::<(Seq<char>, Seq<char>)>::empty());
        r
    }

    /// The response that reports `reported`, pair by pair.
    pub fn from_pairs(reported: &Vec<(String, String)>) -> (r: Response)
        ensures
            r@ == Seq::new(reported@.len(), |i: int| (reported@[i].0@, reported@[i].1@)),
    {
        let mut attributes: Vec<Attribute> = Vec::new();
        let mut i: usize = 0;
        while i < reported.len()
            invariant
                i <= reported@.len(),
                attributes@.len() == i,
                forall|j: int|
                    0 <= j < i ==> (#[trigger] attributes@[j])@ == (
                        reported@[j].0@,
                        reported@[j].1@,
                    ),
            decreases reported@.len() - i,
        {
            let pair = &reported[i];
            attributes.push(Attribute { key: pair.0.clone(), value: pair.1.clone() });
            i += 1;
        }
        let r = Response { attributes };
        assert(r@ =~= Seq::new(reported@.len(), |i: int| (reported@[i].0@, reported@[i].1@)));
        r
    }

    /// The response with one more attribute at its end.
    pub fn add_attribute(self, key: &str, value: &str) -> (r: Response)
        ensures
            r@ == self@.push((key@, value@)),
    {
        let mut attributes = self.attributes;
        attributes.push(Attribute { key: key.to_owned(), value: value.to_owned() });
        let r = Response { attributes };
        assert(r@ =~= self@.push((key@, value@)));
        r
    }
}

} // verus!
