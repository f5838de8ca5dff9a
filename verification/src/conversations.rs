//! Conversation records and the list edits the shell performs on them.
//! Loading and saving the flat JSON file is the shell's job; the rules for
//! inserting, replacing, deleting and renaming entries are verified here.
use vstd::prelude::*;
use vstd::string::*;

verus! {

/// Message payloads are JSON values carried through untouched; none of the
/// list edits below reads inside one.
#[verifier::external_type_specification]
#[verifier::external_body]
pub struct ExValue(serde_json::Value);

/// A single message in a conversation.
pub struct ConversationMessage {
    pub id: String,
    pub role: String,
    pub content: serde_json::Value,
    pub timestamp: u64,
}

/// A conversation with its messages.
pub struct Conversation {
    pub id: String,
    pub title: String,
    pub created_at: u64,
    pub updated_at: u64,
    pub messages: Vec<ConversationMessage>,
    pub model: Option<String>,
}

/// Container for all conversations, newest first.
pub struct ConversationsData {
    pub conversations: Vec<Conversation>,
}

impl ConversationsData {
    /// An empty store, used when no conversations file exists yet.
    pub fn new() -> (data: ConversationsData)
        ensures
            data.conversations@ == Seq::<Conversation>::empty(),
    {
        let data = ConversationsData { conversations: Vec::new() };
        proof {
            assert(data.conversations@ =~= Seq::<Conversation>::empty());
        }
        data
    }
}

/// Whether some entry carries the given id.
pub open spec fn spec_has_conversation(convs: Seq<Conversation>, id: Seq<char>) -> bool {
    exists|i: int| 0 <= i < convs.len() && convs[i].id@ == id
}

/// Add a conversation at the front: the newest entry comes first.
pub fn create_conversation(data: &mut ConversationsData, conversation: Conversation)
    ensures
        final(data).conversations@ == old(data).conversations@.insert(0, conversation),
{
    data.conversations.insert(0, conversation);
}

/// Replace the first entry carrying the new conversation's id, keeping its
/// position; an unknown id changes nothing and is reported.
pub fn update_conversation(data: &mut ConversationsData, conversation: Conversation) -> (r:
    Result<(), String>)
    ensures
        r is Ok <==> spec_has_conversation(old(data).conversations@, conversation.id@),
        r is Ok ==> exists|i: int|
            {
                &&& 0 <= i < old(data).conversations@.len()
                &&& old(data).conversations@[i].id@ == conversation.id@
                &&& forall|j: int|
                    0 <= j < i ==> old(data).conversations@[j].id@ != conversation.id@
                &&& final(data).conversations@ == old(data).conversations@.update(i, conversation)
            },
        r is Err ==> final(data).conversations@ == old(data).conversations@,
        (r matches Err(m) ==> m@ == "Conversation not found"@),
{
    let n = data.conversations.len();
    for i in 0..n
        invariant
            n == data.conversations.len(),
            data.conversations@ == old(data).conversations@,
            forall|j: int| 0 <= j < i ==> old(data).conversations@[j].id@ != conversation.id@,
    {
        if data.conversations[i].id == conversation.id {
            data.conversations.set(i, conversation);
            return Ok(());
        }
    }
    Err(String::from_str("Conversation not found"))
}

/// The entries that survive deleting `id`: those whose id differs, in
/// their original order.
pub open spec fn spec_without_id(convs: Seq<Conversation>, id: Seq<char>) -> Seq<Conversation>
    decreases convs.len(),
{
    if convs.len() == 0 {
        Seq::empty()
    } else {
        let rest = spec_without_id(convs.drop_last(), id);
        if convs.last().id@ != id {
            rest.push(convs.last())
        } else {
            rest
        }
    }
}

/// Remove every entry carrying the given id; the remaining entries keep
/// their order.
pub fn delete_conversation(data: &mut ConversationsData, id: &String)
    ensures
        final(data).conversations@ == spec_without_id(old(data).conversations@, id@),
{
    let mut source: Vec<Conversation> = Vec::new();
    core::mem::swap(&mut source, &mut data.conversations);
    let ghost src0 = source@;
    proof {
        assert(src0.subrange(0, 0) =~= Seq::<Conversation>::empty());
        assert(data.conversations@ =~= spec_without_id(src0.subrange(0, 0), id@));
    }
    while source.len() > 0
        invariant
            source.len() <= src0.len(),
            source@ == src0.subrange(src0.len() - source.len(), src0.len() as int),
            data.conversations@ == spec_without_id(src0.subrange(0, src0.len() - source.len()), id@),
        decreases source.len(),
    {
        let ghost i = src0.len() - source@.len();
        let ghost kept_pre = data.conversations@;
        let c = source.remove(0);
        proof {
            assert(c == src0[i]);
            assert(source@ =~= src0.subrange(i + 1, src0.len() as int));
        }
        let is_match = c.id.eq(id);
        if !is_match {
            data.conversations.push(c);
        }
        proof {
            let s1 = src0.subrange(0, i + 1);
            assert(s1.drop_last() =~= src0.subrange(0, i));
            assert(s1.last() == src0[i]);
            assert(data.conversations@ =~= spec_without_id(s1, id@));
        }
    }
    proof {
        assert(src0.subrange(0, src0.len() as int) =~= src0);
    }
}

/// `after` is `before` with exactly the first entry carrying `id` — at
/// position `i` — given the new title, and nothing else changed.
pub open spec fn spec_renamed_at(
    before: Seq<Conversation>,
    after: Seq<Conversation>,
    id: Seq<char>,
    title: Seq<char>,
    i: int,
) -> bool {
    &&& 0 <= i < before.len()
    &&& before[i].id@ == id
    &&& forall|j: int| 0 <= j < i ==> before[j].id@ != id
    &&& after.len() == before.len()
    &&& spec_retitled(before[i], after[i], title)
    &&& forall|j: int| 0 <= j < before.len() && j != i ==> after[j] == before[j]
}

/// The second conversation is the first with only its title replaced.
pub open spec fn spec_retitled(c: Conversation, d: Conversation, title: Seq<char>) -> bool {
    &&& d.id == c.id
    &&& d.title@ == title
    &&& d.created_at == c.created_at
    &&& d.updated_at == c.updated_at
    &&& d.messages == c.messages
    &&& d.model == c.model
}

/// Give the first entry carrying the given id a new title, leaving every
/// other field and every other entry unchanged; an unknown id changes
/// nothing and is reported.
pub fn rename_conversation(data: &mut ConversationsData, id: &String, title: String) -> (r:
    Result<(), String>)
    ensures
        r is Ok <==> spec_has_conversation(old(data).conversations@, id@),
        r is Ok ==> exists|i: int|
            #[trigger] spec_renamed_at(
                old(data).conversations@,
                final(data).conversations@,
                id@,
                title@,
                i,
            ),
        r is Err ==> final(data).conversations@ == old(data).conversations@,
        (r matches Err(m) ==> m@ == "Conversation not found"@),
{
    let n = data.conversations.len();
    for i in 0..n
        invariant
            n == data.conversations.len(),
            data.conversations@ == old(data).conversations@,
            forall|j: int| 0 <= j < i ==> old(data).conversations@[j].id@ != id@,
    {
        if data.conversations[i].id == *id {
            let mut c = data.conversations.remove(i);
            c.title = title;
            data.conversations.insert(i, c);
            proof {
                assert(data.conversations@ =~= old(data).conversations@.update(
                    i as int,
                    data.conversations@[i as int],
                ));
                assert(spec_renamed_at(
                    old(data).conversations@,
                    data.conversations@,
                    id@,
                    title@,
                    i as int,
                ));
            }
            return Ok(());
        }
    }
    Err(String::from_str("Conversation not found"))
}

} // verus!
