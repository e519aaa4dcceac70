//! Canned responses by topic.

use vstd::hash_map::StringHashMap;
use vstd::prelude::*;
use vstd::string::StringExecFns;

verus! {

/// The topic that a fresh knowledge base knows.
pub open spec fn sample_topic() -> Seq<char> {
    "$BTB"@
}

/// The responses that a fresh knowledge base holds for `sample_topic`.
pub open spec fn sample_responses() -> Seq<Seq<char>> {
    seq![
        "Interesting analysis on $BTB! The market dynamics look promising."@,
        "Thanks for sharing your insights on $BTB. Have you considered the recent developments?"@,
        "Great point about $BTB! The community's growth has been remarkable."@,
    ]
}

/// The responses to `topic` once `response` has been added to `known`: it
/// comes last, after what the topic had, or alone for a new topic.
pub open spec fn responses_with(
    known: Map<Seq<char>, Seq<Seq<char>>>,
    topic: Seq<char>,
    response: Seq<char>,
) -> Seq<Seq<char>> {
    if known.contains_key(topic) {
        known[topic].push(response)
    } else {
        seq![response]
    }
}

/// Responses by topic, each topic's in the order in which they were added.
/// The lists are found through a hash index from topic to position.
pub struct KnowledgeBase {
    index: StringHashMap<usize>,
    lists: Vec<Vec<String>>,
}

impl View for KnowledgeBase {
    type V = Map<Seq<char>, Seq<Seq<char>>>;

    closed spec fn view(&self) -> Map<Seq<char>, Seq<Seq<char>>> {
        Map::new(
            |topic: Seq<char>| self.index@.contains_key(topic),
            |topic: Seq<char>| self.lists[self.index@[topic] as int]@.map_values(|r: String| r@),
        )
    }
}

impl KnowledgeBase {
    /// The invariant: the index leads each topic to a list of its own.
    #[verifier::type_invariant]
    closed spec fn wf(&self) -> bool {
        &&& forall|topic: Seq<char>| #[trigger]
            self.index@.contains_key(topic) ==> self.index@[topic] < self.lists.len()
        &&& forall|a: Seq<char>, b: Seq<char>|
            self.index@.contains_key(a) && self.index@.contains_key(b) && self.index@[a]
                == self.index@[b] ==> a == b
    }

    fn empty() -> (base: Self)
        ensures
            base@ == Map::<Seq<char>, Seq<Seq<char>>>::empty(),
    {
        let base = KnowledgeBase { index: StringHashMap::new(), lists: Vec::new() };
        assert(base@ =~= Map::<Seq<char>, Seq<Seq<char>>>::empty());
        base
    }

    /// A knowledge base that holds the three sample responses for the one
    /// sample topic.
    pub fn new() -> (base: Self)
        ensures
            base@ == Map::<Seq<char>, Seq<Seq<char>>>::empty().insert(
                sample_topic(),
                sample_responses(),
            ),
    {
        let mut base = Self::empty();
        base.add_response(
            String::from_str("$BTB"),
            String::from_str("Interesting analysis on $BTB! The market dynamics look promising."),
        );
        base.add_response(
            String::from_str("$BTB"),
            String::from_str(
                "Thanks for sharing your insights on $BTB. Have you considered the recent developments?",
            ),
        );
        base.add_response(
            String::from_str("$BTB"),
            String::from_str("Great point about $BTB! The community's growth has been remarkable."),
        );
        assert(base@[sample_topic()] =~= sample_responses());
        assert(base@ =~= Map::<Seq<char>, Seq<Seq<char>>>::empty().insert(
            sample_topic(),
            sample_responses(),
        ));
        base
    }

    /// The response to give on `topic`: the first that was added for it;
    /// none for a topic without responses.
    pub fn get_response(&self, topic: &str) -> (response: Option<&String>)
        ensures
            match response {
                Some(r) => self@.contains_key(topic@) && self@[topic@].len() > 0 && r@
                    == self@[topic@][0],
                None => !self@.contains_key(topic@) || self@[topic@].len() == 0,
            },
    {
        proof {
            use_type_invariant(self);
        }
        match self.index.get(topic) {
            Some(position) => {
                let list = &self.lists[*position];
                if list.len() > 0 {
                    Some(&list[0])
                } else {
                    None
                }
            },
            None => None,
        }
    }

    /// Adds `response` to the responses of `topic`, after those it has. A
    /// topic not yet known is made known by it.
    pub fn add_response(&mut self, topic: String, response: String)
        ensures
            final(self)@ == old(self)@.insert(
                topic@,
                responses_with(old(self)@, topic@, response@),
            ),
    {
        proof {
            use_type_invariant(&*self);
        }
        let mut taken = Self::empty();
        core::mem::swap(self, &mut taken);
        let KnowledgeBase { mut index, mut lists } = taken;
        let found = match index.get(topic.as_str()) {
            Some(position) => Some(*position),
            None => None,
        };
        let ghost view_of = |r: String| r@;
        match found {
            Some(position) => {
                let ghost before = lists[position as int]@;
                let list = &mut lists[position];
                list.push(response);
                assert(before.push(response).map_values(view_of) =~= before.map_values(
                    view_of,
                ).push(response@));
            },
            None => {
                let position = lists.len();
                let mut list = Vec::new();
                list.push(response);
                assert(list@.map_values(view_of) =~= seq![response@]);
                lists.push(list);
                index.insert(topic, position);
            },
        }
        *self = KnowledgeBase { index, lists };
        assert(self@ =~= old(self)@.insert(
            topic@,
            responses_with(old(self)@, topic@, response@),
        ));
    }
}

} // verus!
