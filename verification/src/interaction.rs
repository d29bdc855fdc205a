//! What an agent reads of the messages and skills of its peers.

use vstd::prelude::*;
use crate::chat::{Message, MessageView};
use crate::text::{contains, contains_text};

verus! {

/// What is read of a skill that a remote agent offers.
#[derive(Debug, Clone)]
pub struct Skill {
    pub id: String,
    pub name: String,
    pub description: String,
}

pub struct SkillView {
    pub id: Seq<char>,
    pub name: Seq<char>,
    pub description: Seq<char>,
}

impl DeepView for Skill {
    type V = SkillView;

    open spec fn deep_view(&self) -> SkillView {
        SkillView { id: self.id@, name: self.name@, description: self.description@ }
    }
}

impl View for Skill {
    type V = SkillView;

    open spec fn view(&self) -> SkillView {
        self.deep_view()
    }
}

/// The skill mentions `skill_name` in its id, its name or its description.
pub open spec fn skill_mentions(skill: SkillView, skill_name: Seq<char>) -> bool {
    ||| contains_text(skill.id, skill_name)
    ||| contains_text(skill.name, skill_name)
    ||| contains_text(skill.description, skill_name)
}

/// Whether one of `skills` mentions `skill_name` in its id, its name or its
/// description.
pub fn has_skill(skills: &Vec<Skill>, skill_name: &str) -> (found: bool)
    ensures
        found == exists|i: int|
            0 <= i < skills.len() && skill_mentions(#[trigger] skills.deep_view()[i], skill_name@),
{
    let mut i: usize = 0;
    while i < skills.len()
        invariant
            i <= skills.len(),
            forall|j: int| 0 <= j < i ==> !skill_mentions(#[trigger] skills.deep_view()[j], skill_name@),
        decreases skills.len() - i,
    {
        let skill = &skills[i];
        if contains(skill.id.as_str(), skill_name) || contains(skill.name.as_str(), skill_name)
            || contains(skill.description.as_str(), skill_name) {
            assert(skill_mentions(skills.deep_view()[i as int], skill_name@));
            return true;
        }
        i += 1;
    }
    false
}

/// What is read of one part of a message: its text, where it is a text
/// part.
#[derive(Debug, Clone)]
pub enum MessagePart {
    Text(String),
    Other,
}

pub enum MessagePartView {
    Text(Seq<char>),
    Other,
}

impl DeepView for MessagePart {
    type V = MessagePartView;

    open spec fn deep_view(&self) -> MessagePartView {
        match self {
            MessagePart::Text(t) => MessagePartView::Text(t@),
            MessagePart::Other => MessagePartView::Other,
        }
    }
}

impl View for MessagePart {
    type V = MessagePartView;

    open spec fn view(&self) -> MessagePartView {
        self.deep_view()
    }
}

/// The texts of the text parts, in order.
pub open spec fn text_lines(parts: Seq<MessagePartView>) -> Seq<Seq<char>>
    decreases parts.len(),
{
    if parts.len() == 0 {
        Seq::empty()
    } else {
        match parts.last() {
            MessagePartView::Text(t) => text_lines(parts.drop_last()).push(t),
            MessagePartView::Other => text_lines(parts.drop_last()),
        }
    }
}

/// `lines` joined, with `sep` between every two of them.
pub open spec fn join_with(lines: Seq<Seq<char>>, sep: Seq<char>) -> Seq<char>
    decreases lines.len(),
{
    if lines.len() == 0 {
        Seq::empty()
    } else if lines.len() == 1 {
        lines[0]
    } else {
        join_with(lines.drop_last(), sep) + sep + lines.last()
    }
}

/// The text that a list of parts carries: its text parts, one per line.
pub open spec fn text_of(parts: Seq<MessagePartView>) -> Seq<char> {
    join_with(text_lines(parts), "\n"@)
}

/// The text that a list of parts carries: the texts of its text parts,
/// joined by line breaks. Parts of any other kind are passed over.
pub fn text_of_parts(parts: &Vec<MessagePart>) -> (text: String)
    ensures
        text@ == text_of(parts.deep_view()),
{
    let ghost all = parts.deep_view();
    let mut text = String::new();
    let mut first = true;
    let mut i: usize = 0;
    proof {
        assert(all.take(0) =~= Seq::empty());
    }
    while i < parts.len()
        invariant
            i <= parts.len(),
            all == parts.deep_view(),
            first <==> text_lines(all.take(i as int)).len() == 0,
            text@ == join_with(text_lines(all.take(i as int)), "\n"@),
        decreases parts.len() - i,
    {
        let ghost lines = text_lines(all.take(i as int));
        proof {
            assert(all.take(i as int + 1).drop_last() =~= all.take(i as int));
            assert(all.take(i as int + 1).last() == all[i as int]);
        }
        match &parts[i] {
            MessagePart::Text(t) => {
                proof {
                    assert(lines.push(t@).drop_last() =~= lines);
                }
                if first {
                    text = t.clone();
                    first = false;
                } else {
                    text = text.concat("\n").concat(t.as_str());
                }
            },
            MessagePart::Other => {},
        }
        i += 1;
    }
    proof {
        assert(all.take(i as int) =~= all);
    }
    text
}

/// The request that an incoming message stands for: its text, from the
/// `user`.
pub fn a2a_message_to_llm_message(parts: &Vec<MessagePart>) -> (message: Message)
    ensures
        message@ == (MessageView {
            role: "user"@,
            content: Some(text_of(parts.deep_view())),
            tool_call_id: None,
            tool_calls: None,
        }),
{
    Message {
        role: "user".to_string(),
        content: Some(text_of_parts(parts)),
        tool_call_id: None,
        tool_calls: None,
    }
}

/// The text of the reply that a message of the model stands for. A message
/// without content stands for no reply.
pub fn llm_message_to_a2a_message(llm_message: Message) -> (text: Option<String>)
    ensures
        text == llm_message.content,
{
    llm_message.content
}

/// The message that carries the output of a finished request back to the
/// peer, from the `agent`.
pub fn agent_reply(output: String) -> (message: Message)
    ensures
        message@ == (MessageView {
            role: "agent"@,
            content: Some(output@),
            tool_call_id: None,
            tool_calls: None,
        }),
{
    Message { role: "agent".to_string(), content: Some(output), tool_call_id: None, tool_calls: None }
}

} // verus!
