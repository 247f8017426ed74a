//! Chat template application.
//!
//! A model's chat template is recognised by the markers it contains, and the
//! conversation is laid out in the matching format: ChatML, Llama 2, Llama 3, or a
//! plain `role: content` fallback.

use vstd::prelude::*;
use crate::text::{push_char, seq_contains, seq_ends_with, str_contains, str_ends_with};
use crate::vortex::tokenizer::types::{ChatMessage, ChatRole, role_name};

verus! {

/// One message in ChatML form.
pub open spec fn chatml_block(m: ChatMessage) -> Seq<char> {
    "<|im_start|>"@ + role_name(m.role) + seq!['\n'] + m.content@ + "<|im_end|>\n"@
}

/// The ChatML form of a conversation.
pub open spec fn chatml_text(ms: Seq<ChatMessage>, add_generation_prompt: bool) -> Seq<char>
    decreases ms.len(),
{
    if ms.len() == 0 {
        if add_generation_prompt { "<|im_start|>assistant\n"@ } else { Seq::empty() }
    } else {
        chatml_body(ms) + if add_generation_prompt { "<|im_start|>assistant\n"@ } else { Seq::empty() }
    }
}

/// The ChatML blocks of a conversation, in order.
pub open spec fn chatml_body(ms: Seq<ChatMessage>) -> Seq<char>
    decreases ms.len(),
{
    if ms.len() == 0 {
        Seq::empty()
    } else {
        chatml_body(ms.drop_last()) + chatml_block(ms.last())
    }
}

/// One message in Llama 3 form.
pub open spec fn llama3_block(m: ChatMessage) -> Seq<char> {
    "<|start_header_id|>"@ + role_name(m.role) + "<|end_header_id|>\n\n"@ + m.content@ + "<|eot_id|>"@
}

/// The Llama 3 blocks of a conversation, in order.
pub open spec fn llama3_body(ms: Seq<ChatMessage>) -> Seq<char>
    decreases ms.len(),
{
    if ms.len() == 0 {
        Seq::empty()
    } else {
        llama3_body(ms.drop_last()) + llama3_block(ms.last())
    }
}

/// One message in the plain fallback form.
pub open spec fn simple_block(m: ChatMessage) -> Seq<char> {
    role_name(m.role) + ": "@ + m.content@ + seq!['\n']
}

/// The plain blocks of a conversation, in order.
pub open spec fn simple_body(ms: Seq<ChatMessage>) -> Seq<char>
    decreases ms.len(),
{
    if ms.len() == 0 {
        Seq::empty()
    } else {
        simple_body(ms.drop_last()) + simple_block(ms.last())
    }
}

/// The plain form of a conversation is the plain forms of its parts put together:
/// formatting `a` then `b` gives the text of `a` followed by the text of `b`, and a
/// generation prompt only adds its line at the end.
pub proof fn law_simple_body_concat(a: Seq<ChatMessage>, b: Seq<ChatMessage>, add_generation_prompt: bool)
    ensures
        simple_body(a + b) == simple_body(a) + simple_body(b),
        simple_text(a + b, add_generation_prompt) == simple_body(a) + simple_text(b, add_generation_prompt),
    decreases b.len(),
{
    if b.len() == 0 {
        assert(a + b =~= a);
        assert(simple_body(a) + Seq::<char>::empty() =~= simple_body(a));
    } else {
        law_simple_body_concat(a, b.drop_last(), add_generation_prompt);
        assert((a + b).drop_last() =~= a + b.drop_last());
        assert((a + b).last() == b.last());
        assert(simple_body(a) + simple_body(b.drop_last()) + simple_block(b.last())
            =~= simple_body(a) + (simple_body(b.drop_last()) + simple_block(b.last())));
    }
    assert(simple_body(a) + simple_body(b) + (if add_generation_prompt { "assistant: "@ } else { Seq::<char>::empty() })
        =~= simple_body(a) + (simple_body(b) + (if add_generation_prompt { "assistant: "@ } else { Seq::<char>::empty() })));
}

/// The content of the first system message, if there is one.
pub open spec fn first_system(ms: Seq<ChatMessage>) -> Option<Seq<char>>
    decreases ms.len(),
{
    if ms.len() == 0 {
        None
    } else if ms[0].role == ChatRole::System {
        Some(ms[0].content@)
    } else {
        first_system(ms.drop_first())
    }
}

/// The Llama 2 system block that opens a user turn.
pub open spec fn llama2_sys_prefix(sys: Seq<char>) -> Seq<char> {
    "<<SYS>>\n"@ + sys + "\n<</SYS>>\n\n"@
}

/// A system block in a turn of its own (no user message took it).
pub open spec fn llama2_sys_turn(sys: Seq<char>) -> Seq<char> {
    "[INST] <<SYS>>\n"@ + sys + "\n<</SYS>>\n\n [/INST]"@
}

/// One Llama 2 step: the text so far and the system message still pending, after `m`.
/// The pending system message goes with the first user turn, or in a turn of its
/// own before the first assistant turn; other system messages are left out.
pub open spec fn llama2_step(acc: (Seq<char>, Option<Seq<char>>), m: ChatMessage) -> (Seq<char>, Option<Seq<char>>) {
    let (text, pending) = acc;
    match m.role {
        ChatRole::System => (text, pending),
        ChatRole::User => (
            text + "[INST] "@ + (match pending { Some(sys) => llama2_sys_prefix(sys), None => Seq::empty() })
                + m.content@ + " [/INST]"@,
            None,
        ),
        ChatRole::Assistant => (
            text + (match pending { Some(sys) => llama2_sys_turn(sys), None => Seq::empty() }) + seq![' ']
                + m.content@ + " </s><s>"@,
            None,
        ),
    }
}

/// The Llama 2 text of the messages and the system message still pending after them.
pub open spec fn llama2_fold(ms: Seq<ChatMessage>, sys: Option<Seq<char>>) -> (Seq<char>, Option<Seq<char>>)
    decreases ms.len(),
{
    if ms.len() == 0 {
        (Seq::empty(), sys)
    } else {
        llama2_step(llama2_fold(ms.drop_last(), sys), ms.last())
    }
}

/// The Llama 2 form of a conversation; with a generation prompt, a space follows a
/// final ` [/INST]`.
pub open spec fn llama2_text(ms: Seq<ChatMessage>, add_generation_prompt: bool) -> Seq<char> {
    let (text, pending) = llama2_fold(ms, first_system(ms));
    let closed = match pending { Some(sys) => text + llama2_sys_turn(sys), None => text };
    if add_generation_prompt && seq_ends_with(closed, " [/INST]"@) {
        closed.push(' ')
    } else {
        closed
    }
}

proof fn lemma_llama2_fold_skips_system(ms: Seq<ChatMessage>, i: int, sys: Option<Seq<char>>)
    requires
        0 <= i < ms.len(),
        ms[i].role == ChatRole::System,
    ensures
        llama2_fold(ms.remove(i), sys) == llama2_fold(ms, sys),
    decreases ms.len(),
{
    if i == ms.len() - 1 {
        assert(ms.remove(i) =~= ms.drop_last());
    } else {
        lemma_llama2_fold_skips_system(ms.drop_last(), i, sys);
        assert(ms.remove(i).drop_last() =~= ms.drop_last().remove(i));
        assert(ms.remove(i).last() == ms.last());
    }
}

proof fn lemma_first_system_after_remove(ms: Seq<ChatMessage>, i: int, j: int)
    requires
        0 <= j < i < ms.len(),
        ms[j].role == ChatRole::System,
    ensures
        first_system(ms.remove(i)) == first_system(ms),
    decreases ms.len(),
{
    if ms[0].role == ChatRole::System {
        assert(ms.remove(i)[0] == ms[0]);
    } else {
        assert(j > 0);
        assert(ms.remove(i)[0] == ms[0]);
        assert(ms.remove(i).drop_first() =~= ms.drop_first().remove(i - 1));
        lemma_first_system_after_remove(ms.drop_first(), i - 1, j - 1);
    }
}

/// In the Llama 2 layout only the first system message counts: leaving out any
/// later system message gives the same text, so there is at most one system block
/// and it holds the first system message.
pub proof fn law_llama2_later_system_ignored(ms: Seq<ChatMessage>, i: int, j: int, add_generation_prompt: bool)
    requires
        0 <= j < i < ms.len(),
        ms[j].role == ChatRole::System,
        ms[i].role == ChatRole::System,
    ensures
        llama2_text(ms.remove(i), add_generation_prompt) == llama2_text(ms, add_generation_prompt),
{
    lemma_first_system_after_remove(ms, i, j);
    lemma_llama2_fold_skips_system(ms, i, first_system(ms));
}

proof fn lemma_llama2_fold_from_none(ms: Seq<ChatMessage>)
    ensures
        llama2_fold(ms, None).1 is None,
    decreases ms.len(),
{
    if ms.len() > 0 {
        lemma_llama2_fold_from_none(ms.drop_last());
    }
}

proof fn lemma_first_system_none(ms: Seq<ChatMessage>)
    requires
        forall|i: int| 0 <= i < ms.len() ==> (#[trigger] ms[i]).role != ChatRole::System,
    ensures
        first_system(ms) is None,
    decreases ms.len(),
{
    if ms.len() > 0 {
        assert(ms[0].role != ChatRole::System);
        assert forall|i: int| 0 <= i < ms.drop_first().len() implies (#[trigger] ms.drop_first()[i]).role != ChatRole::System by {
            assert(ms.drop_first()[i] == ms[i + 1]);
        }
        lemma_first_system_none(ms.drop_first());
    }
}

/// In the Llama 2 layout, a conversation without system messages grows turn by
/// turn: a user message adds `[INST] `, its content and ` [/INST]` (followed by a
/// space when a generation prompt is asked for), and an assistant message adds a
/// space, its content and ` </s><s>`.
pub proof fn law_llama2_plain_turns(ms: Seq<ChatMessage>, m: ChatMessage, add_generation_prompt: bool)
    requires
        forall|i: int| 0 <= i < ms.len() ==> (#[trigger] ms[i]).role != ChatRole::System,
        m.role != ChatRole::System,
    ensures
        m.role == ChatRole::User ==> llama2_text(ms.push(m), add_generation_prompt) == llama2_text(ms, false)
            + "[INST] "@ + m.content@ + " [/INST]"@ + (if add_generation_prompt { seq![' '] } else { Seq::<char>::empty() }),
        m.role == ChatRole::Assistant ==> llama2_text(ms.push(m), add_generation_prompt) == llama2_text(ms, false)
            + seq![' '] + m.content@ + " </s><s>"@,
{
    let all = ms.push(m);
    assert forall|i: int| 0 <= i < all.len() implies (#[trigger] all[i]).role != ChatRole::System by {
        if i < ms.len() {
            assert(all[i] == ms[i]);
        }
    }
    lemma_first_system_none(ms);
    lemma_first_system_none(all);
    lemma_llama2_fold_from_none(ms);
    assert(all.drop_last() =~= ms);
    assert(all.last() == m);
    let text = llama2_fold(ms, None).0;
    let closed_before = text;
    assert(llama2_text(ms, false) == text);
    if m.role == ChatRole::User {
        let closed = text + "[INST] "@ + Seq::<char>::empty() + m.content@ + " [/INST]"@;
        assert(llama2_fold(all, None).0 == closed);
        assert(closed =~= text + "[INST] "@ + m.content@ + " [/INST]"@);
        assert(closed.subrange(closed.len() - " [/INST]"@.len(), closed.len() as int) =~= " [/INST]"@);
        assert(seq_ends_with(closed, " [/INST]"@));
        if add_generation_prompt {
            assert(closed.push(' ') =~= text + "[INST] "@ + m.content@ + " [/INST]"@ + seq![' ']);
        } else {
            assert(closed =~= text + "[INST] "@ + m.content@ + " [/INST]"@ + Seq::<char>::empty());
        }
    } else {
        let closed = text + Seq::<char>::empty() + seq![' '] + m.content@ + " </s><s>"@;
        assert(llama2_fold(all, None).0 == closed);
        assert(closed =~= text + seq![' '] + m.content@ + " </s><s>"@);
        reveal_strlit(" </s><s>");
        reveal_strlit(" [/INST]");
        let tail = closed.subrange(closed.len() - 8, closed.len() as int);
        assert(tail =~= " </s><s>"@);
        assert(tail[1] != " [/INST]"@[1]);
        assert(!seq_ends_with(closed, " [/INST]"@));
    }
}

/// In the Llama 2 layout a system message followed by a user message gives one
/// instruction turn with the system block first: `[INST] <<SYS>>`, a newline, the
/// system content, a newline, `<</SYS>>`, a blank line, the user content and
/// ` [/INST]` (followed by a space when a generation prompt is asked for).
pub proof fn law_llama2_system_then_user(sys: ChatMessage, user: ChatMessage, add_generation_prompt: bool)
    requires
        sys.role == ChatRole::System,
        user.role == ChatRole::User,
    ensures
        llama2_text(seq![sys, user], add_generation_prompt) == "[INST] <<SYS>>\n"@ + sys.content@
            + "\n<</SYS>>\n\n"@ + user.content@ + " [/INST]"@
            + (if add_generation_prompt { seq![' '] } else { Seq::<char>::empty() }),
{
    let ms = seq![sys, user];
    assert(first_system(ms) == Some(sys.content@));
    assert(ms.drop_last() =~= seq![sys]);
    assert(seq![sys].drop_last() =~= Seq::<ChatMessage>::empty());
    assert(seq![sys].last() == sys);
    assert(ms.last() == user);
    assert(llama2_fold(Seq::<ChatMessage>::empty(), Some(sys.content@)) == (Seq::<char>::empty(), Some(sys.content@)));
    assert(llama2_fold(seq![sys], Some(sys.content@)) == llama2_step(llama2_fold(seq![sys].drop_last(), Some(sys.content@)), sys));
    let f1 = llama2_fold(seq![sys], Some(sys.content@));
    assert(f1 == (Seq::<char>::empty(), Some(sys.content@)));
    reveal_strlit("[INST] <<SYS>>\n");
    reveal_strlit("[INST] ");
    reveal_strlit("<<SYS>>\n");
    let closed = Seq::<char>::empty() + "[INST] "@ + llama2_sys_prefix(sys.content@) + user.content@ + " [/INST]"@;
    assert(llama2_fold(ms, Some(sys.content@)) == (closed, None::<Seq<char>>));
    let want = "[INST] <<SYS>>\n"@ + sys.content@ + "\n<</SYS>>\n\n"@ + user.content@ + " [/INST]"@;
    assert("[INST] <<SYS>>\n"@ =~= "[INST] "@ + "<<SYS>>\n"@);
    assert(closed =~= want);
    assert(closed.subrange(closed.len() - " [/INST]"@.len(), closed.len() as int) =~= " [/INST]"@);
    if add_generation_prompt {
        assert(closed.push(' ') =~= want + seq![' ']);
    } else {
        assert(closed =~= want + Seq::<char>::empty());
    }
}

/// The Llama 3 form of a conversation.
pub open spec fn llama3_text(ms: Seq<ChatMessage>, add_generation_prompt: bool) -> Seq<char> {
    "<|begin_of_text|>"@ + llama3_body(ms)
        + if add_generation_prompt { "<|start_header_id|>assistant<|end_header_id|>\n\n"@ } else { Seq::empty() }
}

/// In the Llama 3 layout the text opens with `<|begin_of_text|>` and each message
/// adds one turn closed by the end-of-turn marker: a header naming its role, the
/// content, then `<|eot_id|>`. A generation prompt adds an open assistant header at
/// the very end.
pub proof fn law_llama3_turns(ms: Seq<ChatMessage>, m: ChatMessage, add_generation_prompt: bool)
    ensures
        llama3_text(Seq::empty(), add_generation_prompt) == "<|begin_of_text|>"@
            + (if add_generation_prompt { "<|start_header_id|>assistant<|end_header_id|>\n\n"@ } else { Seq::<char>::empty() }),
        llama3_text(ms.push(m), add_generation_prompt) == llama3_text(ms, false) + "<|start_header_id|>"@
            + (match m.role { ChatRole::System => "system"@, ChatRole::User => "user"@, ChatRole::Assistant => "assistant"@ }) + "<|end_header_id|>\n\n"@ + m.content@ + "<|eot_id|>"@
            + (if add_generation_prompt { "<|start_header_id|>assistant<|end_header_id|>\n\n"@ } else { Seq::<char>::empty() }),
{
    let g = if add_generation_prompt { "<|start_header_id|>assistant<|end_header_id|>\n\n"@ } else { Seq::<char>::empty() };
    assert(ms.push(m).drop_last() =~= ms);
    assert(role_name(m.role) == (match m.role { ChatRole::System => "system"@, ChatRole::User => "user"@, ChatRole::Assistant => "assistant"@ }));
    assert("<|begin_of_text|>"@ + llama3_body(Seq::empty()) + g =~= "<|begin_of_text|>"@ + g);
    assert("<|begin_of_text|>"@ + llama3_body(ms) + Seq::<char>::empty() =~= "<|begin_of_text|>"@ + llama3_body(ms));
    assert("<|begin_of_text|>"@ + (llama3_body(ms) + llama3_block(m)) + g
        =~= "<|begin_of_text|>"@ + llama3_body(ms) + "<|start_header_id|>"@ + (match m.role { ChatRole::System => "system"@, ChatRole::User => "user"@, ChatRole::Assistant => "assistant"@ }) + "<|end_header_id|>\n\n"@
            + m.content@ + "<|eot_id|>"@ + g);
}

/// In the ChatML layout each message adds one block: `<|im_start|>`, its role, a
/// newline, the content, then `<|im_end|>` and a newline. A generation prompt adds
/// an open assistant block at the very end.
pub proof fn law_chatml_turns(ms: Seq<ChatMessage>, m: ChatMessage, add_generation_prompt: bool)
    ensures
        chatml_text(Seq::empty(), add_generation_prompt)
            == (if add_generation_prompt { "<|im_start|>assistant\n"@ } else { Seq::<char>::empty() }),
        chatml_text(ms.push(m), add_generation_prompt) == chatml_text(ms, false) + "<|im_start|>"@
            + (match m.role { ChatRole::System => "system"@, ChatRole::User => "user"@, ChatRole::Assistant => "assistant"@ }) + seq!['\n'] + m.content@ + "<|im_end|>\n"@
            + (if add_generation_prompt { "<|im_start|>assistant\n"@ } else { Seq::<char>::empty() }),
{
    let g = if add_generation_prompt { "<|im_start|>assistant\n"@ } else { Seq::<char>::empty() };
    assert(ms.push(m).drop_last() =~= ms);
    assert(role_name(m.role) == (match m.role { ChatRole::System => "system"@, ChatRole::User => "user"@, ChatRole::Assistant => "assistant"@ }));
    if ms.len() == 0 {
        assert(chatml_body(ms) =~= Seq::<char>::empty());
    } else {
        assert(chatml_body(ms) + Seq::<char>::empty() =~= chatml_body(ms));
    }
    assert(chatml_text(ms, false) == chatml_body(ms));
    assert(chatml_body(ms) + chatml_block(m) + g
        =~= chatml_body(ms) + "<|im_start|>"@ + (match m.role { ChatRole::System => "system"@, ChatRole::User => "user"@, ChatRole::Assistant => "assistant"@ }) + seq!['\n'] + m.content@ + "<|im_end|>\n"@ + g);
}

/// In the plain layout each message adds one line: its role, `: `, the content and
/// a newline. A generation prompt adds `assistant: ` at the very end.
pub proof fn law_simple_turns(ms: Seq<ChatMessage>, m: ChatMessage, add_generation_prompt: bool)
    ensures
        simple_text(Seq::empty(), add_generation_prompt)
            == (if add_generation_prompt { "assistant: "@ } else { Seq::<char>::empty() }),
        simple_text(ms.push(m), add_generation_prompt) == simple_text(ms, false)
            + (match m.role { ChatRole::System => "system"@, ChatRole::User => "user"@, ChatRole::Assistant => "assistant"@ }) + ": "@ + m.content@ + seq!['\n']
            + (if add_generation_prompt { "assistant: "@ } else { Seq::<char>::empty() }),
{
    let g = if add_generation_prompt { "assistant: "@ } else { Seq::<char>::empty() };
    assert(ms.push(m).drop_last() =~= ms);
    assert(role_name(m.role) == (match m.role { ChatRole::System => "system"@, ChatRole::User => "user"@, ChatRole::Assistant => "assistant"@ }));
    assert(simple_body(Seq::empty()) + g =~= g);
    assert(simple_body(ms) + Seq::<char>::empty() =~= simple_body(ms));
    assert(simple_body(ms) + simple_block(m) + g =~= simple_body(ms) + (match m.role { ChatRole::System => "system"@, ChatRole::User => "user"@, ChatRole::Assistant => "assistant"@ }) + ": "@ + m.content@ + seq!['\n'] + g);
}

/// The plain form of a conversation.
pub open spec fn simple_text(ms: Seq<ChatMessage>, add_generation_prompt: bool) -> Seq<char> {
    simple_body(ms) + if add_generation_prompt { "assistant: "@ } else { Seq::empty() }
}

/// The layout a chat template selects: ChatML if it contains `<|im_start|>`, else
/// Llama 2 if it contains `[INST]`, else Llama 3 if it contains
/// `<|start_header_id|>`, else the plain form.
pub open spec fn jinja_text(template: Seq<char>, ms: Seq<ChatMessage>, add_generation_prompt: bool) -> Seq<char> {
    if seq_contains(template, "<|im_start|>"@) {
        chatml_text(ms, add_generation_prompt)
    } else if seq_contains(template, "[INST]"@) {
        llama2_text(ms, add_generation_prompt)
    } else if seq_contains(template, "<|start_header_id|>"@) {
        llama3_text(ms, add_generation_prompt)
    } else {
        simple_text(ms, add_generation_prompt)
    }
}

/// Apply a chat template: the template's markers select the layout.
pub fn apply_jinja_template(template: &str, messages: &[ChatMessage], add_generation_prompt: bool) -> (s: String)
    ensures
        s@ == jinja_text(template@, messages@, add_generation_prompt),
{
    if str_contains(template, "<|im_start|>") {
        apply_chatml_template(messages, add_generation_prompt)
    } else if str_contains(template, "[INST]") {
        apply_llama2_template(messages, add_generation_prompt)
    } else if str_contains(template, "<|start_header_id|>") {
        apply_llama3_template(messages, add_generation_prompt)
    } else {
        apply_simple_template(messages, add_generation_prompt)
    }
}

/// Apply the ChatML layout.
pub fn apply_chatml_template(messages: &[ChatMessage], add_generation_prompt: bool) -> (s: String)
    ensures
        s@ == chatml_text(messages@, add_generation_prompt),
{
    let mut result = String::new();
    let n = messages.len();
    let mut i: usize = 0;
    while i < n
        invariant
            n == messages@.len(),
            i <= n,
            result@ == chatml_body(messages@.take(i as int)),
        decreases n - i,
    {
        let msg = &messages[i];
        result.append("<|im_start|>");
        result.append(msg.role.as_str());
        push_char(&mut result, '\n');
        result.append(msg.content.as_str());
        result.append("<|im_end|>\n");
        proof {
            assert(messages@.take(i + 1).drop_last() =~= messages@.take(i as int));
            assert(result@ =~= chatml_body(messages@.take(i + 1)));
        }
        i = i + 1;
    }
    proof {
        assert(messages@.take(n as int) =~= messages@);
    }
    if add_generation_prompt {
        result.append("<|im_start|>assistant\n");
    }
    proof {
        if messages@.len() == 0 {
            assert(result@ =~= chatml_text(messages@, add_generation_prompt));
        }
    }
    result
}

/// The content of the first system message, if any.
fn first_system_message(messages: &[ChatMessage]) -> (r: Option<&str>)
    ensures
        match r {
            Some(s) => first_system(messages@) == Some(s@),
            None => first_system(messages@) is None,
        },
{
    let n = messages.len();
    let mut k: usize = 0;
    proof {
        assert(messages@.skip(0) =~= messages@);
    }
    while k < n
        invariant
            n == messages@.len(),
            k <= n,
            first_system(messages@) == first_system(messages@.skip(k as int)),
        decreases n - k,
    {
        if messages[k].role == ChatRole::System {
            proof {
                assert(messages@.skip(k as int)[0] == messages@[k as int]);
            }
            return Some(messages[k].content.as_str());
        }
        proof {
            assert(messages@.skip(k as int).drop_first() =~= messages@.skip(k + 1));
        }
        k = k + 1;
    }
    proof {
        assert(messages@.skip(n as int).len() == 0);
    }
    None
}

/// Apply the Llama 2 layout.
///
/// Only the first system message is used: it opens the first user turn, or stands
/// in a turn of its own before an assistant turn or at the end if no user turn
/// takes it. With a generation prompt, a space follows a final ` [/INST]`.
pub fn apply_llama2_template(messages: &[ChatMessage], add_generation_prompt: bool) -> (s: String)
    ensures
        s@ == llama2_text(messages@, add_generation_prompt),
{
    let mut result = String::new();
    let n = messages.len();
    let mut system_msg = first_system_message(messages);
    let ghost sys0 = first_system(messages@);
    assert(match system_msg { Some(s) => sys0 == Some(s@), None => sys0 is None });
    let mut i: usize = 0;
    while i < n
        invariant
            n == messages@.len(),
            i <= n,
            sys0 == first_system(messages@),
            (result@, match system_msg { Some(s) => Some(s@), None => None::<Seq<char>> })
                == llama2_fold(messages@.take(i as int), sys0),
        decreases n - i,
    {
        let msg = &messages[i];
        let ghost before = (result@, match system_msg { Some(s) => Some(s@), None => None::<Seq<char>> });
        match msg.role {
            ChatRole::System => {},
            ChatRole::User => {
                result.append("[INST] ");
                if let Some(sys) = system_msg.take() {
                    result.append("<<SYS>>\n");
                    result.append(sys);
                    result.append("\n<</SYS>>\n\n");
                }
                result.append(msg.content.as_str());
                result.append(" [/INST]");
            },
            ChatRole::Assistant => {
                if let Some(sys) = system_msg.take() {
                    result.append("[INST] <<SYS>>\n");
                    result.append(sys);
                    result.append("\n<</SYS>>\n\n [/INST]");
                }
                push_char(&mut result, ' ');
                result.append(msg.content.as_str());
                result.append(" </s><s>");
            },
        }
        proof {
            assert(messages@.take(i + 1).drop_last() =~= messages@.take(i as int));
            assert(messages@.take(i + 1).last() == messages@[i as int]);
            let after = llama2_step(before, messages@[i as int]);
            assert(result@ =~= after.0);
        }
        i = i + 1;
    }
    proof {
        assert(messages@.take(n as int) =~= messages@);
    }
    let ghost folded = llama2_fold(messages@, sys0);
    let ghost closed = match folded.1 { Some(sys) => folded.0 + llama2_sys_turn(sys), None => folded.0 };
    if let Some(sys) = system_msg {
        result.append("[INST] <<SYS>>\n");
        result.append(sys);
        result.append("\n<</SYS>>\n\n [/INST]");
    }
    assert(result@ =~= closed);
    if add_generation_prompt && str_ends_with(result.as_str(), " [/INST]") {
        push_char(&mut result, ' ');
    }
    result
}

/// Apply the Llama 3 layout.
pub fn apply_llama3_template(messages: &[ChatMessage], add_generation_prompt: bool) -> (s: String)
    ensures
        s@ == llama3_text(messages@, add_generation_prompt),
{
    let mut result = String::new();
    result.append("<|begin_of_text|>");
    let n = messages.len();
    let mut i: usize = 0;
    while i < n
        invariant
            n == messages@.len(),
            i <= n,
            result@ == "<|begin_of_text|>"@ + llama3_body(messages@.take(i as int)),
        decreases n - i,
    {
        let msg = &messages[i];
        result.append("<|start_header_id|>");
        result.append(msg.role.as_str());
        result.append("<|end_header_id|>\n\n");
        result.append(msg.content.as_str());
        result.append("<|eot_id|>");
        proof {
            assert(messages@.take(i + 1).drop_last() =~= messages@.take(i as int));
            assert(result@ =~= "<|begin_of_text|>"@ + llama3_body(messages@.take(i + 1)));
        }
        i = i + 1;
    }
    proof {
        assert(messages@.take(n as int) =~= messages@);
    }
    if add_generation_prompt {
        result.append("<|start_header_id|>assistant<|end_header_id|>\n\n");
    }
    proof {
        assert(result@ =~= llama3_text(messages@, add_generation_prompt));
    }
    result
}

/// Apply the plain fallback layout: `role: content` lines.
pub fn apply_simple_template(messages: &[ChatMessage], add_generation_prompt: bool) -> (s: String)
    ensures
        s@ == simple_text(messages@, add_generation_prompt),
{
    let mut result = String::new();
    let n = messages.len();
    let mut i: usize = 0;
    while i < n
        invariant
            n == messages@.len(),
            i <= n,
            result@ == simple_body(messages@.take(i as int)),
        decreases n - i,
    {
        let msg = &messages[i];
        result.append(msg.role.as_str());
        result.append(": ");
        result.append(msg.content.as_str());
        push_char(&mut result, '\n');
        proof {
            assert(messages@.take(i + 1).drop_last() =~= messages@.take(i as int));
            assert(result@ =~= simple_body(messages@.take(i + 1)));
        }
        i = i + 1;
    }
    proof {
        assert(messages@.take(n as int) =~= messages@);
    }
    if add_generation_prompt {
        result.append("assistant: ");
    }
    proof {
        assert(result@ =~= simple_text(messages@, add_generation_prompt));
    }
    result
}

} // verus!
