//! Role-tagged chat templating and the token-budgeted history of past turns.

use std::collections::VecDeque;
use vstd::prelude::*;

verus! {

/// The speaker of a chat turn.
#[derive(Clone, Copy, Debug, PartialEq, Eq, Structural)]
pub enum ChatRole {
    System,
    User,
    Assistant,
}

impl ChatRole {
    /// The lower-case name of the role, as it appears inside a rendered turn.
    pub open spec fn spec_as_str(self) -> Seq<char> {
        match self {
            ChatRole::System => "system"@,
            ChatRole::User => "user"@,
            ChatRole::Assistant => "assistant"@,
        }
    }

    /// The upper-case name of the role, used by the role-prefix template.
    pub open spec fn spec_as_str_upper(self) -> Seq<char> {
        match self {
            ChatRole::System => "SYSTEM"@,
            ChatRole::User => "USER"@,
            ChatRole::Assistant => "ASSISTANT"@,
        }
    }

    /// The lower-case name of the role.
    pub fn as_str(self) -> (r: &'static str)
        ensures
            r@ == self.spec_as_str(),
    {
        match self {
            ChatRole::System => "system",
            ChatRole::User => "user",
            ChatRole::Assistant => "assistant",
        }
    }

    /// The upper-case name of the role.
    pub fn as_str_upper(self) -> (r: &'static str)
        ensures
            r@ == self.spec_as_str_upper(),
    {
        match self {
            ChatRole::System => "SYSTEM",
            ChatRole::User => "USER",
            ChatRole::Assistant => "ASSISTANT",
        }
    }
}

/// The delimiter syntax a model expects around each chat turn.
#[derive(Clone, Copy, Debug, PartialEq, Eq, Structural)]
pub enum ChatTemplate {
    /// Explicit begin/end markers around every turn.
    ChatML,
    /// A simple upper-case role prefix before every turn.
    IMessenger,
}

impl ChatTemplate {
    /// The rendering of one `(role, message)` pair under this template.
    pub open spec fn spec_apply_one(self, role: ChatRole, message: Seq<char>) -> Seq<char> {
        match self {
            ChatTemplate::ChatML => "<|im_start|>"@ + role.spec_as_str() + "\n"@ + message
                + "<|im_end|>\n"@,
            ChatTemplate::IMessenger => role.spec_as_str_upper() + ": "@ + message + "\n"@,
        }
    }

    /// Renders exactly one turn, including its trailing delimiter.
    pub fn apply_one(&self, role: ChatRole, message: &str) -> (r: String)
        ensures
            r@ == self.spec_apply_one(role, message@),
    {
        let mut ret = String::new();
        match self {
            ChatTemplate::ChatML => {
                ret.append("<|im_start|>");
                ret.append(role.as_str());
                ret.append("\n");
                ret.append(message);
                ret.append("<|im_end|>\n");
            },
            ChatTemplate::IMessenger => {
                ret.append(role.as_str_upper());
                ret.append(": ");
                ret.append(message);
                ret.append("\n");
            },
        }
        proof {
            assert(ret@ =~= self.spec_apply_one(role, message@));
        }
        ret
    }

    /// Appends every stored turn's already-rendered text, in chronological
    /// order, to `buf`. It does not re-render.
    pub fn insert_history(&self, buf: &mut String, history: &ChatHistory)
        ensures
            final(buf)@ == old(buf)@ + history_text(history.entries()),
    {
        let n = history.message_queue.len();
        let mut i: usize = 0;
        while i < n
            invariant
                n == history.entries().len(),
                i <= n,
                buf@ == old(buf)@ + history_text(history.entries().take(i as int)),
            decreases n - i,
        {
            proof {
                assert(history.entries().take(i + 1).drop_last() =~= history.entries().take(
                    i as int,
                ));
                assert(history.entries().take(i + 1).last() == history.entries()[i as int]);
            }
            buf.append(history.message_queue[i].text.as_str());
            proof {
                assert(buf@ =~= old(buf)@ + history_text(history.entries().take(i + 1)));
            }
            i = i + 1;
        }
        proof {
            assert(history.entries().take(n as int) =~= history.entries());
        }
    }

    /// The marker appended after the final turn to signal that the
    /// assistant's continuation starts here.
    pub open spec fn spec_generation_lead(self) -> Seq<char> {
        match self {
            ChatTemplate::ChatML => "<|im_start|>assistant\n"@,
            ChatTemplate::IMessenger => "ASSISTANT: "@,
        }
    }

    /// Returns the fixed "assistant turn begins here" marker.
    pub fn generation_lead(&self) -> (r: &'static str)
        ensures
            r@ == self.spec_generation_lead(),
    {
        match self {
            ChatTemplate::ChatML => "<|im_start|>assistant\n",
            ChatTemplate::IMessenger => "ASSISTANT: ",
        }
    }
}

/// One Unicode white-space character, as word splitting understands it.
pub open spec fn is_space_char(c: char) -> bool {
    let u = c as u32;
    u == 0x09 || u == 0x0A || u == 0x0B || u == 0x0C || u == 0x0D || u == 0x20 || u == 0x85
        || u == 0xA0 || u == 0x1680 || (0x2000 <= u && u <= 0x200A) || u == 0x2028 || u == 0x2029
        || u == 0x202F || u == 0x205F || u == 0x3000
}

/// Decides whether `c` is white space for the purpose of word counting.
fn is_space(c: char) -> (r: bool)
    ensures
        r == is_space_char(c),
{
    let u = c as u32;
    u == 0x09 || u == 0x0A || u == 0x0B || u == 0x0C || u == 0x0D || u == 0x20 || u == 0x85
        || u == 0xA0 || u == 0x1680 || (0x2000 <= u && u <= 0x200A) || u == 0x2028 || u == 0x2029
        || u == 0x202F || u == 0x205F || u == 0x3000
}

/// How many words start within the first `n` characters of `s`: a word
/// starts at a non-space character that is first, or follows a space.
pub open spec fn word_starts_up_to(s: Seq<char>, n: int) -> nat
    decreases n,
{
    if n <= 0 {
        0
    } else {
        word_starts_up_to(s, n - 1) + (if !is_space_char(s[n - 1]) && (n == 1 || is_space_char(
            s[n - 2],
        )) {
            1nat
        } else {
            0nat
        })
    }
}

/// The number of white-space-separated words in `s`.
pub open spec fn word_count(s: Seq<char>) -> nat {
    word_starts_up_to(s, s.len() as int)
}

/// The fixed token-count heuristic: four thirds of the word count,
/// rounded down. An approximation, not exact tokenizer output.
pub open spec fn token_estimate(s: Seq<char>) -> nat {
    (word_count(s) * 4) / 3
}

/// Counts words and applies the four-thirds token heuristic.
pub fn estimate_tokens(message: &str) -> (n: usize)
    requires
        message@.len() * 4 <= usize::MAX,
    ensures
        n == token_estimate(message@),
{
    let len = message.unicode_len();
    let mut i: usize = 0;
    let mut words: usize = 0;
    let mut prev_space = true;
    while i < len
        invariant
            len == message@.len(),
            message@.len() * 4 <= usize::MAX,
            i <= len,
            words <= i,
            words == word_starts_up_to(message@, i as int),
            prev_space == (i == 0 || is_space_char(message@[i as int - 1])),
        decreases len - i,
    {
        let c = message.get_char(i);
        let sp = is_space(c);
        if !sp && prev_space {
            words = words + 1;
        }
        prev_space = sp;
        i = i + 1;
    }
    (words * 4) / 3
}

/// One remembered turn: an estimated token count and the pre-rendered text.
/// The text is stored already rendered, so a template change mid-session
/// does not retroactively reformat old turns.
pub struct HistoryEntry {
    pub estimate: usize,
    pub text: String,
}

/// The mathematical shape of a stored turn.
pub open spec fn entry_model(e: HistoryEntry) -> (nat, Seq<char>) {
    (e.estimate as nat, e.text@)
}

/// The aggregate estimated token count of a queue of turns.
pub open spec fn sum_counts(s: Seq<(nat, Seq<char>)>) -> nat
    decreases s.len(),
{
    if s.len() == 0 {
        0
    } else {
        s[0].0 + sum_counts(s.drop_first())
    }
}

/// Oldest-first eviction: drop entries from the front until the aggregate
/// estimate fits the budget, but always keep the newest entry, so that a
/// single over-budget turn is retained rather than looping unboundedly.
pub open spec fn evict_to_budget(s: Seq<(nat, Seq<char>)>, budget: nat) -> Seq<(nat, Seq<char>)>
    decreases s.len(),
{
    if sum_counts(s) <= budget || s.len() <= 1 {
        s
    } else {
        evict_to_budget(s.drop_first(), budget)
    }
}

/// The concatenation, in chronological order, of the stored turn texts.
pub open spec fn history_text(s: Seq<(nat, Seq<char>)>) -> Seq<char>
    decreases s.len(),
{
    if s.len() == 0 {
        Seq::empty()
    } else {
        history_text(s.drop_last()) + s.last().1
    }
}

proof fn lemma_sum_counts_push(s: Seq<(nat, Seq<char>)>, e: (nat, Seq<char>))
    ensures
        sum_counts(s.push(e)) == sum_counts(s) + e.0,
    decreases s.len(),
{
    if s.len() == 0 {
        assert(s.push(e)[0] == e);
        assert(s.push(e).drop_first() =~= Seq::<(nat, Seq<char>)>::empty());
        assert(sum_counts(s.push(e).drop_first()) == 0);
        assert(sum_counts(s.push(e)) == e.0 + sum_counts(s.push(e).drop_first()));
        assert(sum_counts(s) == 0);
    } else {
        assert(s.push(e)[0] == s[0]);
        assert(s.push(e).drop_first() =~= s.drop_first().push(e));
        lemma_sum_counts_push(s.drop_first(), e);
        assert(sum_counts(s.push(e)) == s[0].0 + sum_counts(s.push(e).drop_first()));
        assert(sum_counts(s) == s[0].0 + sum_counts(s.drop_first()));
    }
}

/// Law: whatever the queue, eviction leaves the aggregate estimate within
/// the budget, unless exactly one entry is left, which may alone exceed it.
pub proof fn lemma_evict_to_budget_bounded(s: Seq<(nat, Seq<char>)>, budget: nat)
    ensures
        sum_counts(evict_to_budget(s, budget)) <= budget || evict_to_budget(s, budget).len() == 1,
    decreases s.len(),
{
    if sum_counts(s) <= budget || s.len() <= 1 {
    } else {
        lemma_evict_to_budget_bounded(s.drop_first(), budget);
    }
}

/// Law: eviction removes only the oldest entries: what survives is a
/// contiguous suffix of the queue, newest turns kept.
pub proof fn lemma_evict_is_suffix(s: Seq<(nat, Seq<char>)>, budget: nat)
    ensures
        exists|k: int|
            0 <= k <= s.len() && evict_to_budget(s, budget) == s.subrange(k, s.len() as int),
    decreases s.len(),
{
    if sum_counts(s) <= budget || s.len() <= 1 {
        assert(evict_to_budget(s, budget) =~= s.subrange(0, s.len() as int));
        assert(0 <= 0 <= s.len() && evict_to_budget(s, budget) == s.subrange(0, s.len() as int));
    } else {
        lemma_evict_is_suffix(s.drop_first(), budget);
        let k = choose|k: int|
            0 <= k <= s.drop_first().len() && evict_to_budget(s.drop_first(), budget) == s
                .drop_first()
                .subrange(k, s.drop_first().len() as int);
        assert(s.drop_first().subrange(k, s.drop_first().len() as int) =~= s.subrange(
            k + 1,
            s.len() as int,
        ));
        assert(0 <= k + 1 <= s.len() && evict_to_budget(s, budget) == s.subrange(
            k + 1,
            s.len() as int,
        ));
    }
}

/// Whether a recorded turn left the history within its token budget.
#[derive(Clone, Copy, Debug, PartialEq, Eq, Structural)]
pub enum RecordStatus {
    /// The history fits its budget after eviction.
    Fits,
    /// The newest entry alone exceeds the budget; it is kept as the only
    /// entry rather than evicted.
    Oversized,
}

/// A bounded-memory ordered log of previously rendered turns. Insertion
/// order is chronological order; once the aggregate estimated token count
/// exceeds the budget, the oldest turns are evicted.
pub struct ChatHistory {
    rough_token_count: usize,
    token_limit: usize,
    message_queue: VecDeque<HistoryEntry>,
}

impl ChatHistory {
    /// The stored turns, oldest first, as (estimate, text) pairs.
    pub closed spec fn entries(&self) -> Seq<(nat, Seq<char>)> {
        self.message_queue@.map_values(|e: HistoryEntry| entry_model(e))
    }

    /// The fixed aggregate token budget.
    pub closed spec fn budget(&self) -> nat {
        self.token_limit as nat
    }

    /// The running aggregate of the stored estimates.
    pub closed spec fn total(&self) -> nat {
        self.rough_token_count as nat
    }

    /// The running total agrees with the stored entries.
    pub open spec fn wf(&self) -> bool {
        self.total() == sum_counts(self.entries())
    }

    /// An empty history with the given token budget.
    pub fn new(limit: usize) -> (h: ChatHistory)
        ensures
            h.wf(),
            h.entries() == Seq::<(nat, Seq<char>)>::empty(),
            h.budget() == limit,
            h.total() == 0,
    {
        let h = ChatHistory {
            rough_token_count: 0,
            token_limit: limit,
            message_queue: VecDeque::new(),
        };
        proof {
            assert(h.entries() =~= Seq::<(nat, Seq<char>)>::empty());
        }
        h
    }

    /// Appends a turn with an explicit token estimate, then evicts oldest
    /// turns until the aggregate fits the budget, keeping at least the
    /// newest entry.
    pub fn record_with_estimate(&mut self, estimate: usize, text: String) -> (status: RecordStatus)
        requires
            old(self).wf(),
            old(self).total() + estimate <= usize::MAX,
        ensures
            final(self).wf(),
            final(self).budget() == old(self).budget(),
            final(self).entries() == evict_to_budget(
                old(self).entries().push((estimate as nat, text@)),
                old(self).budget(),
            ),
            final(self).total() <= final(self).budget() || final(self).entries().len() == 1,
            status == RecordStatus::Fits <==> final(self).total() <= final(self).budget(),
            status == RecordStatus::Oversized ==> final(self).entries().len() == 1
                && final(self).entries()[0].0 > final(self).budget(),
    {
        let ghost pushed = (estimate as nat, text@);
        let ghost goal = evict_to_budget(old(self).entries().push(pushed), old(self).budget());
        proof {
            lemma_sum_counts_push(old(self).entries(), pushed);
        }
        self.message_queue.push_back(HistoryEntry { estimate, text });
        self.rough_token_count = self.rough_token_count + estimate;
        proof {
            assert(self.entries() =~= old(self).entries().push(pushed));
        }
        while self.rough_token_count > self.token_limit && self.message_queue.len() > 1
            invariant
                self.wf(),
                self.budget() == old(self).budget(),
                self.entries().len() >= 1,
                evict_to_budget(self.entries(), self.budget()) == goal,
            decreases self.entries().len(),
        {
            let ghost before = self.entries();
            match self.message_queue.pop_front() {
                Some(e) => {
                    proof {
                        assert(before[0] == entry_model(e));
                        assert(self.entries() =~= before.drop_first());
                    }
                    self.rough_token_count = self.rough_token_count - e.estimate;
                },
                None => unreached(),
            }
        }
        proof {
            if self.rough_token_count > self.token_limit {
                assert(self.entries().len() == 1);
                assert(self.entries().drop_first().len() == 0);
                assert(sum_counts(self.entries()) == self.entries()[0].0 + sum_counts(
                    self.entries().drop_first(),
                ));
            }
        }
        if self.rough_token_count <= self.token_limit {
            RecordStatus::Fits
        } else {
            RecordStatus::Oversized
        }
    }

    /// Estimates the token count of `message` with the word-count
    /// heuristic, then records it like `record_with_estimate`.
    pub fn record_message(&mut self, message: &str) -> (status: RecordStatus)
        requires
            old(self).wf(),
            message@.len() * 4 <= usize::MAX,
            old(self).total() + token_estimate(message@) <= usize::MAX,
        ensures
            final(self).wf(),
            final(self).budget() == old(self).budget(),
            final(self).entries() == evict_to_budget(
                old(self).entries().push((token_estimate(message@), message@)),
                old(self).budget(),
            ),
            final(self).total() <= final(self).budget() || final(self).entries().len() == 1,
            status == RecordStatus::Fits <==> final(self).total() <= final(self).budget(),
            status == RecordStatus::Oversized ==> final(self).entries().len() == 1
                && final(self).entries()[0].0 > final(self).budget(),
    {
        let n = estimate_tokens(message);
        self.record_with_estimate(n, message.to_owned())
    }

    /// How many turns are currently stored.
    pub fn len(&self) -> (n: usize)
        ensures
            n == self.entries().len(),
    {
        self.message_queue.len()
    }

    /// The running aggregate of the stored estimates.
    pub fn total_estimate(&self) -> (n: usize)
        ensures
            n == self.total(),
    {
        self.rough_token_count
    }

    /// The fixed aggregate token budget.
    pub fn token_budget(&self) -> (n: usize)
        ensures
            n == self.budget(),
    {
        self.token_limit
    }

    /// The estimated token count of the `i`-th oldest stored turn.
    pub fn entry_estimate(&self, i: usize) -> (n: usize)
        requires
            i < self.entries().len(),
        ensures
            n == self.entries()[i as int].0,
    {
        self.message_queue[i].estimate
    }

    /// The pre-rendered text of the `i`-th oldest stored turn.
    pub fn entry_text(&self, i: usize) -> (t: &String)
        requires
            i < self.entries().len(),
        ensures
            t@ == self.entries()[i as int].1,
    {
        &self.message_queue[i].text
    }
}

/// The rendering of the optional retrieved context as an injected
/// system-role turn, or nothing when absent.
pub open spec fn spec_context_turn(template: ChatTemplate, context: Option<String>) -> Seq<char> {
    match context {
        Some(c) => template.spec_apply_one(ChatRole::System, c@),
        None => Seq::empty(),
    }
}

/// Composes a one-shot prompt: system turn, optional context turn, user
/// turn, then the generation lead. Touches no history.
pub fn make_prompt(
    template: ChatTemplate,
    system_prompt: &str,
    user_prompt: &str,
    additional_context: Option<String>,
) -> (r: String)
    ensures
        r@ == template.spec_apply_one(ChatRole::System, system_prompt@) + spec_context_turn(
            template,
            additional_context,
        ) + template.spec_apply_one(ChatRole::User, user_prompt@)
            + template.spec_generation_lead(),
{
    let mut ret = String::new();
    let sys = template.apply_one(ChatRole::System, system_prompt);
    ret.append(sys.as_str());
    if let Some(text) = &additional_context {
        let ctx = template.apply_one(ChatRole::System, text.as_str());
        ret.append(ctx.as_str());
    }
    let user = template.apply_one(ChatRole::User, user_prompt);
    ret.append(user.as_str());
    ret.append(template.generation_lead());
    proof {
        assert(ret@ =~= template.spec_apply_one(ChatRole::System, system_prompt@)
            + spec_context_turn(template, additional_context) + template.spec_apply_one(
            ChatRole::User,
            user_prompt@,
        ) + template.spec_generation_lead());
    }
    ret
}

/// Composes a prompt from the system turn, the replayed history, the
/// optional context turn, the new user turn and the generation lead, and,
/// as a side effect, records the rendered user turn into the history, so
/// that later calls replay it too.
pub fn make_prompt_with_history(
    template: ChatTemplate,
    system_prompt: &str,
    user_prompt: &str,
    additional_context: Option<String>,
    history: &mut ChatHistory,
) -> (r: String)
    requires
        old(history).wf(),
        template.spec_apply_one(ChatRole::User, user_prompt@).len() * 4 <= usize::MAX,
        old(history).total() + token_estimate(
            template.spec_apply_one(ChatRole::User, user_prompt@),
        ) <= usize::MAX,
    ensures
        r@ == template.spec_apply_one(ChatRole::System, system_prompt@) + history_text(
            old(history).entries(),
        ) + spec_context_turn(template, additional_context) + template.spec_apply_one(
            ChatRole::User,
            user_prompt@,
        ) + template.spec_generation_lead(),
        final(history).wf(),
        final(history).budget() == old(history).budget(),
        final(history).entries() == evict_to_budget(
            old(history).entries().push(
                (
                    token_estimate(template.spec_apply_one(ChatRole::User, user_prompt@)),
                    template.spec_apply_one(ChatRole::User, user_prompt@),
                ),
            ),
            old(history).budget(),
        ),
        final(history).total() <= final(history).budget() || final(history).entries().len() == 1,
{
    let mut ret = String::new();
    let sys = template.apply_one(ChatRole::System, system_prompt);
    ret.append(sys.as_str());
    template.insert_history(&mut ret, history);
    if let Some(actx) = &additional_context {
        let formatted_context = template.apply_one(ChatRole::System, actx.as_str());
        ret.append(formatted_context.as_str());
    }
    let rendered_user = template.apply_one(ChatRole::User, user_prompt);
    ret.append(rendered_user.as_str());
    let _ = history.record_message(rendered_user.as_str());
    ret.append(template.generation_lead());
    proof {
        assert(ret@ =~= template.spec_apply_one(ChatRole::System, system_prompt@) + history_text(
            old(history).entries(),
        ) + spec_context_turn(template, additional_context) + template.spec_apply_one(
            ChatRole::User,
            user_prompt@,
        ) + template.spec_generation_lead());
    }
    ret
}

/// Law: two distinct roles never render to the same string under any
/// template, whatever the message text: the role stays recoverable.
pub proof fn lemma_roles_render_distinct(
    template: ChatTemplate,
    r1: ChatRole,
    r2: ChatRole,
    message: Seq<char>,
)
    requires
        r1 != r2,
    ensures
        template.spec_apply_one(r1, message) != template.spec_apply_one(r2, message),
{
    reveal_strlit("system");
    reveal_strlit("user");
    reveal_strlit("assistant");
    reveal_strlit("SYSTEM");
    reveal_strlit("USER");
    reveal_strlit("ASSISTANT");
    assert(r1.spec_as_str().len() != r2.spec_as_str().len());
    assert(r1.spec_as_str_upper().len() != r2.spec_as_str_upper().len());
    assert(template.spec_apply_one(r1, message).len() != template.spec_apply_one(
        r2,
        message,
    ).len());
}

} // verus!
