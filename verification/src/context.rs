//! Event dispatch: mapping recognized gestures to their configured command
//! slots, matching horizontal-scroll events against ordered window-class
//! rules, and the time-bounded cache of the focused window's class.
//!
//! Pattern matching is done by the `regex` crate and the focus query's JSON
//! response is read by `serde_json`; both are reached only through the small
//! trusted wrappers below.  Running commands and querying the compositor are
//! the driver program's job: the library only decides what should run.

use vstd::prelude::*;

use crate::config::{Config, GestureCommands, ScrollRule};
use crate::input::{sat_sub_u64, InputEvent, SwipeDirection};

verus! {

#[verifier::external_type_specification]
#[verifier::external_body]
pub struct ExRegex(regex::Regex);

/// Whether `regex::Regex::new` accepts this pattern.
pub uninterp spec fn regex_valid(pattern: Seq<char>) -> bool;

/// What `regex::Regex::is_match` answers for a compiled pattern and a text;
/// it depends on the pattern and the text alone.
pub uninterp spec fn regex_match(pattern: Seq<char>, text: Seq<char>) -> bool;

/// What `str::trim` leaves of a string.
pub uninterp spec fn trim_of(s: Seq<char>) -> Seq<char>;

/// The string value of the named top-level field of a JSON document, when the
/// document parses to an object holding one; a function of bytes and field
/// name alone.
pub uninterp spec fn json_str_field(bytes: Seq<u8>, field: Seq<char>) -> Option<Seq<char>>;

/// Relies on regex::Regex::new: compilation succeeds exactly for the patterns
/// the crate accepts, and depends on the pattern string alone.
#[verifier::external_body]
fn compile_pattern(pattern: &str) -> (r: Option<regex::Regex>)
    ensures
        r is Some <==> regex_valid(pattern@),
{
    regex::Regex::new(pattern).ok()
}

/// Relies on regex::Regex::is_match: whether the compiled pattern matches the
/// text, a function of the pattern source and the text alone.  Every
/// `CompiledScrollRule` ties its `pattern` field to its `pattern_source`
/// field: the fields are private and `compile_rule` is the only constructor.
#[verifier::external_body]
fn rule_pattern_matches(rule: &CompiledScrollRule, text: &str) -> (r: bool)
    ensures
        r == regex_match(rule.spec_pattern(), text@),
{
    rule.pattern.is_match(text)
}

/// Relies on str::trim: removes leading and trailing whitespace and depends on
/// the characters alone; an empty string stays empty.
#[verifier::external_body]
fn trim_str(s: &str) -> (r: String)
    ensures
        r@ == trim_of(s@),
        s@.len() == 0 ==> r@.len() == 0,
{
    s.trim().to_owned()
}

/// Relies on serde_json::from_slice::<Value>, Value::get and Value::as_str:
/// parsing is a function of the bytes alone, and the extracted field value is
/// returned exactly when the bytes parse to an object whose named field holds
/// a string.
#[verifier::external_body]
fn json_string_field(bytes: &[u8], field: &str) -> (r: Option<String>)
    ensures
        match r {
            Some(s) => json_str_field(bytes@, field@) == Some(s@),
            None => json_str_field(bytes@, field@) is None,
        },
{
    match serde_json::from_slice::<serde_json::Value>(bytes) {
        Ok(value) => value.get(field).and_then(|f| f.as_str()).map(|s| s.to_owned()),
        Err(_) => None,
    }
}

/// Why the dispatcher could not be built from a configuration.
#[derive(Debug, Clone, Copy, PartialEq, Eq, Structural)]
pub enum HandlerError {
    /// The scroll rule at this position has a window-class pattern that is not
    /// a valid regular expression.
    InvalidScrollPattern { index: usize },
}

/// The views of a list of command strings.
pub open spec fn strings_view(v: Seq<String>) -> Seq<Seq<char>> {
    v.map_values(|s: String| s@)
}

/// A command that runs nothing: empty or whitespace-only.
pub open spec fn spec_blank(s: Seq<char>) -> bool {
    trim_of(s).len() == 0
}

/// Whether this command string is the "do nothing" sentinel.
pub fn is_noop_command(command: &str) -> (r: bool)
    ensures
        r == spec_blank(command@),
{
    let trimmed = trim_str(command);
    trimmed.as_str().is_empty()
}

fn clone_commands(commands: &Vec<String>) -> (r: Vec<String>)
    ensures
        strings_view(r@) == strings_view(commands@),
{
    let mut out: Vec<String> = Vec::new();
    let mut i: usize = 0;
    while i < commands.len()
        invariant
            i <= commands.len(),
            out@.len() == i,
            forall|j: int| 0 <= j < i ==> out@[j]@ == commands@[j]@,
        decreases commands.len() - i,
    {
        out.push(commands[i].clone());
        i += 1;
    }
    proof {
        assert(strings_view(out@) =~= strings_view(commands@));
    }
    out
}

/// An immutable pairing of a compiled window-class pattern with the two
/// ordered command lists, one per scroll direction.  Built once from
/// configuration; the compiled `pattern` is always the compilation of
/// `pattern_source`, which the contracts speak of.
pub struct CompiledScrollRule {
    pattern_source: String,
    pattern: regex::Regex,
    right_commands: Vec<String>,
    left_commands: Vec<String>,
}

impl CompiledScrollRule {
    pub closed spec fn spec_pattern(&self) -> Seq<char> {
        self.pattern_source@
    }

    pub closed spec fn spec_right(&self) -> Seq<Seq<char>> {
        strings_view(self.right_commands@)
    }

    pub closed spec fn spec_left(&self) -> Seq<Seq<char>> {
        strings_view(self.left_commands@)
    }

    /// Compile one configured rule; `None` exactly when the pattern is not a
    /// valid regular expression.
    pub fn compile_rule(rule: &ScrollRule) -> (r: Option<CompiledScrollRule>)
        ensures
            r is Some <==> regex_valid(rule.window_class_regex@),
            r matches Some(c) ==> c.spec_pattern() == rule.window_class_regex@
                && c.spec_right() == strings_view(rule.scroll_right_commands@)
                && c.spec_left() == strings_view(rule.scroll_left_commands@),
    {
        match compile_pattern(rule.window_class_regex.as_str()) {
            Some(pattern) => Some(CompiledScrollRule {
                pattern_source: rule.window_class_regex.clone(),
                pattern,
                right_commands: clone_commands(&rule.scroll_right_commands),
                left_commands: clone_commands(&rule.scroll_left_commands),
            }),
            None => None,
        }
    }
}

/// The window class carried by the raw bytes of a focus-query response:
/// a missing response (failed or refused query), unparseable bytes, or a
/// response without a string `class` field all degrade to the empty class.
pub open spec fn spec_window_class(bytes: Option<Seq<u8>>) -> Seq<char> {
    match bytes {
        Some(b) => match json_str_field(b, "class"@) {
            Some(c) => c,
            None => Seq::empty(),
        },
        None => Seq::empty(),
    }
}

/// Whether this rule's pattern matches the window class.
pub open spec fn spec_rule_matches(rule: CompiledScrollRule, class: Seq<char>) -> bool {
    regex_match(rule.spec_pattern(), class)
}

/// The position of the first rule whose pattern matches the class:
/// first-match-wins, in configuration order.
pub open spec fn spec_first_match(rules: Seq<CompiledScrollRule>, class: Seq<char>) -> Option<int>
    decreases rules.len(),
{
    if rules.len() == 0 {
        None
    } else if spec_rule_matches(rules[0], class) {
        Some(0)
    } else {
        match spec_first_match(rules.subrange(1, rules.len() as int), class) {
            Some(i) => Some(i + 1),
            None => None,
        }
    }
}

/// The commands a scroll event runs: the matched rule's right list for a
/// positive delta, its left list for zero or negative, nothing without a match.
pub open spec fn spec_scroll_commands(rules: Seq<CompiledScrollRule>, class: Seq<char>, delta: int) -> Seq<Seq<char>> {
    match spec_first_match(rules, class) {
        Some(i) => if delta > 0 { rules[i].spec_right() } else { rules[i].spec_left() },
        None => Seq::empty(),
    }
}

/// `spec_first_match` points at the least matching position: its rule matches
/// and every earlier rule does not.
pub proof fn lemma_first_match_least(rules: Seq<CompiledScrollRule>, class: Seq<char>)
    ensures
        match spec_first_match(rules, class) {
            Some(i) => 0 <= i < rules.len() && spec_rule_matches(rules[i], class)
                && (forall|j: int| 0 <= j < i ==> !spec_rule_matches(#[trigger] rules[j], class)),
            None => forall|j: int| 0 <= j < rules.len() ==> !spec_rule_matches(#[trigger] rules[j], class),
        },
    decreases rules.len(),
{
    if rules.len() == 0 {
    } else if spec_rule_matches(rules[0], class) {
    } else {
        let tail = rules.subrange(1, rules.len() as int);
        lemma_first_match_least(tail, class);
        match spec_first_match(tail, class) {
            Some(i) => {
                assert forall|j: int| 0 <= j < i + 1 implies !spec_rule_matches(#[trigger] rules[j], class) by {
                    if j > 0 {
                        assert(rules[j] == tail[j - 1]);
                    }
                }
            },
            None => {
                assert forall|j: int| 0 <= j < rules.len() implies !spec_rule_matches(#[trigger] rules[j], class) by {
                    if j > 0 {
                        assert(rules[j] == tail[j - 1]);
                    }
                }
            },
        }
    }
}

/// Scroll-rule selection is order-stable: when two rules both match a class,
/// the commands come from the one standing earlier in configuration order,
/// and the later rule's commands never run for that event.
pub proof fn lemma_rule_order_stable(rules: Seq<CompiledScrollRule>, class: Seq<char>, i: int, j: int, delta: int)
    requires
        0 <= i < j < rules.len(),
        spec_rule_matches(rules[i], class),
        spec_rule_matches(rules[j], class),
    ensures
        spec_first_match(rules, class) matches Some(k) && k <= i
            && spec_scroll_commands(rules, class, delta)
                == (if delta > 0 { rules[k].spec_right() } else { rules[k].spec_left() }),
{
    lemma_first_match_least(rules, class);
}

/// Whether the cached class is still fresh at `now_ms`: a query has been
/// stored at all, and strictly less than the poll interval has elapsed since.
/// Before the first store there is nothing to serve, so the cache is stale at
/// every time.
pub open spec fn cache_fresh(last_ms: Option<u64>, now_ms: u64, poll_ms: u64) -> bool {
    match last_ms {
        Some(t) => sat_sub_u64(now_ms as int, t as int) < poll_ms as int,
        None => false,
    }
}

/// The command slot a gesture event addresses.
pub open spec fn gesture_slot(cmds: GestureCommands, event: InputEvent) -> Seq<char> {
    match event {
        InputEvent::GestureTap => cmds.tap@,
        InputEvent::GestureSwipe(SwipeDirection::Left) => cmds.swipe_left@,
        InputEvent::GestureSwipe(SwipeDirection::Right) => cmds.swipe_right@,
        InputEvent::GestureSwipe(SwipeDirection::Up) => cmds.swipe_up@,
        InputEvent::GestureSwipe(SwipeDirection::Down) => cmds.swipe_down@,
        InputEvent::HorizontalScroll(_) => Seq::empty(),
    }
}

/// What a tap or swipe runs: its configured slot command, unless that command
/// is the blank no-op sentinel.
pub open spec fn spec_gesture_commands(cmds: GestureCommands, event: InputEvent) -> Seq<Seq<char>> {
    if spec_blank(gesture_slot(cmds, event)) {
        Seq::empty()
    } else {
        seq![gesture_slot(cmds, event)]
    }
}

/// What the dispatcher decides for one event: either a list of commands to
/// run, or that the focused window class must be queried first.
pub open spec fn spec_handle_event(h: EventHandler, event: InputEvent, now_ms: u64) -> OutcomeView {
    match event {
        InputEvent::HorizontalScroll(delta) => {
            if cache_fresh(h.focus_last_ms, now_ms, h.focus_poll_ms) {
                OutcomeView::Run(spec_scroll_commands(h.scroll_rules@, h.focus_class@, delta as int))
            } else {
                OutcomeView::Query
            }
        },
        _ => OutcomeView::Run(spec_gesture_commands(h.gestures, event)),
    }
}

/// The dispatcher's answer to one event.
#[derive(Debug, Clone, PartialEq, Eq)]
pub enum EventOutcome {
    /// Run these commands, in order; possibly none.
    Commands(Vec<String>),
    /// A scroll arrived while the cached window class is stale: query the
    /// focused window's class, then hand it to `resolve_scroll`.
    NeedsFocusQuery,
}

/// The ghost shape of an `EventOutcome`.
pub enum OutcomeView {
    Run(Seq<Seq<char>>),
    Query,
}

impl View for EventOutcome {
    type V = OutcomeView;

    open spec fn view(&self) -> OutcomeView {
        match self {
            EventOutcome::Commands(cs) => OutcomeView::Run(strings_view(cs@)),
            EventOutcome::NeedsFocusQuery => OutcomeView::Query,
        }
    }
}

/// Maps gesture events to configured commands and scroll events to
/// window-class-matched command lists, through a time-bounded cache of the
/// focused window's class.
pub struct EventHandler {
    pub gestures: GestureCommands,
    pub scroll_rules: Vec<CompiledScrollRule>,
    /// When the last focus query was stored; `None` until the first store,
    /// so a freshly built dispatcher always queries on its first scroll.
    pub focus_last_ms: Option<u64>,
    pub focus_class: String,
    pub focus_poll_ms: u64,
}

impl EventHandler {
    /// Build the dispatcher from a configuration, compiling every scroll rule;
    /// fails on the first invalid window-class pattern.  The cache starts with
    /// no stored query, hence stale at every time: the first scroll event
    /// queries the compositor, whenever the dispatcher was built.
    pub fn new(config: &Config) -> (r: Result<EventHandler, HandlerError>)
        ensures
            r is Ok <==> (forall|i: int| 0 <= i < config.scroll.rules@.len()
                ==> regex_valid(#[trigger] config.scroll.rules@[i].window_class_regex@)),
            r matches Ok(h) ==> ({
                &&& h.scroll_rules@.len() == config.scroll.rules@.len()
                &&& forall|i: int| 0 <= i < h.scroll_rules@.len() ==> {
                    &&& (#[trigger] h.scroll_rules@[i]).spec_pattern() == config.scroll.rules@[i].window_class_regex@
                    &&& h.scroll_rules@[i].spec_right() == strings_view(config.scroll.rules@[i].scroll_right_commands@)
                    &&& h.scroll_rules@[i].spec_left() == strings_view(config.scroll.rules@[i].scroll_left_commands@)
                }
                &&& h.gestures.tap@ == config.gesture.commands.tap@
                &&& h.gestures.swipe_left@ == config.gesture.commands.swipe_left@
                &&& h.gestures.swipe_right@ == config.gesture.commands.swipe_right@
                &&& h.gestures.swipe_up@ == config.gesture.commands.swipe_up@
                &&& h.gestures.swipe_down@ == config.gesture.commands.swipe_down@
                &&& h.focus_poll_ms == config.scroll.focus_poll_ms
                &&& h.focus_class@ == Seq::<char>::empty()
                &&& h.focus_last_ms is None
            }),
            r matches Err(e) ==> ({
                &&& e matches HandlerError::InvalidScrollPattern { index }
                &&& index < config.scroll.rules@.len()
                &&& !regex_valid(config.scroll.rules@[index as int].window_class_regex@)
                &&& forall|j: int| 0 <= j < index
                    ==> regex_valid(#[trigger] config.scroll.rules@[j].window_class_regex@)
            }),
    {
        let mut rules: Vec<CompiledScrollRule> = Vec::new();
        let mut i: usize = 0;
        while i < config.scroll.rules.len()
            invariant
                i <= config.scroll.rules.len(),
                rules@.len() == i,
                forall|j: int| 0 <= j < i
                    ==> regex_valid(#[trigger] config.scroll.rules@[j].window_class_regex@),
                forall|j: int| 0 <= j < i ==> {
                    &&& (#[trigger] rules@[j]).spec_pattern() == config.scroll.rules@[j].window_class_regex@
                    &&& rules@[j].spec_right() == strings_view(config.scroll.rules@[j].scroll_right_commands@)
                    &&& rules@[j].spec_left() == strings_view(config.scroll.rules@[j].scroll_left_commands@)
                },
            decreases config.scroll.rules.len() - i,
        {
            match CompiledScrollRule::compile_rule(&config.scroll.rules[i]) {
                Some(compiled) => {
                    rules.push(compiled);
                },
                None => {
                    return Err(HandlerError::InvalidScrollPattern { index: i });
                },
            }
            i += 1;
        }
        Ok(EventHandler {
            gestures: GestureCommands {
                tap: config.gesture.commands.tap.clone(),
                swipe_left: config.gesture.commands.swipe_left.clone(),
                swipe_right: config.gesture.commands.swipe_right.clone(),
                swipe_up: config.gesture.commands.swipe_up.clone(),
                swipe_down: config.gesture.commands.swipe_down.clone(),
            },
            scroll_rules: rules,
            focus_last_ms: None,
            focus_class: String::new(),
            focus_poll_ms: config.scroll.focus_poll_ms,
        })
    }

    /// The ordered commands a scroll of `delta` runs for this window class:
    /// the first matching rule's list for the delta's direction.
    pub fn scroll_commands(&self, window_class: &str, delta: i32) -> (r: Vec<String>)
        ensures
            strings_view(r@) == spec_scroll_commands(self.scroll_rules@, window_class@, delta as int),
    {
        let mut i: usize = 0;
        while i < self.scroll_rules.len()
            invariant
                i <= self.scroll_rules.len(),
                forall|j: int| 0 <= j < i
                    ==> !spec_rule_matches(#[trigger] self.scroll_rules@[j], window_class@),
            decreases self.scroll_rules.len() - i,
        {
            if rule_pattern_matches(&self.scroll_rules[i], window_class) {
                proof {
                    lemma_first_match_least(self.scroll_rules@, window_class@);
                    assert(spec_first_match(self.scroll_rules@, window_class@) == Some(i as int));
                }
                let commands = if delta > 0 {
                    clone_commands(&self.scroll_rules[i].right_commands)
                } else {
                    clone_commands(&self.scroll_rules[i].left_commands)
                };
                return commands;
            }
            i += 1;
        }
        proof {
            lemma_first_match_least(self.scroll_rules@, window_class@);
            assert(strings_view(Seq::<String>::empty()) =~= Seq::<Seq<char>>::empty());
        }
        Vec::new()
    }

    /// Decide one event.  Taps and swipes map to their configured slot; a
    /// scroll uses the cached window class while it is fresh and otherwise
    /// asks the caller to query the compositor first.
    pub fn handle_event(&self, event: InputEvent, now_ms: u64) -> (r: EventOutcome)
        ensures
            r@ == spec_handle_event(*self, event, now_ms),
    {
        match event {
            InputEvent::GestureTap => EventOutcome::Commands(Self::slot_commands(&self.gestures.tap)),
            InputEvent::GestureSwipe(direction) => {
                let command = match direction {
                    SwipeDirection::Left => &self.gestures.swipe_left,
                    SwipeDirection::Right => &self.gestures.swipe_right,
                    SwipeDirection::Up => &self.gestures.swipe_up,
                    SwipeDirection::Down => &self.gestures.swipe_down,
                };
                EventOutcome::Commands(Self::slot_commands(command))
            },
            InputEvent::HorizontalScroll(delta) => {
                let fresh: bool = match self.focus_last_ms {
                    Some(last_ms) => {
                        let elapsed_ms: u64 = if now_ms >= last_ms { now_ms - last_ms } else { 0 };
                        elapsed_ms < self.focus_poll_ms
                    },
                    None => false,
                };
                if fresh {
                    EventOutcome::Commands(self.scroll_commands(self.focus_class.as_str(), delta))
                } else {
                    EventOutcome::NeedsFocusQuery
                }
            },
        }
    }

    fn slot_commands(command: &String) -> (r: Vec<String>)
        ensures
            strings_view(r@) == (if spec_blank(command@) {
                Seq::<Seq<char>>::empty()
            } else {
                seq![command@]
            }),
    {
        if is_noop_command(command.as_str()) {
            let r: Vec<String> = Vec::new();
            proof {
                assert(strings_view(r@) =~= Seq::<Seq<char>>::empty());
            }
            r
        } else {
            let mut r: Vec<String> = Vec::new();
            r.push(command.clone());
            proof {
                assert(strings_view(r@) =~= seq![command@]);
            }
            r
        }
    }

    /// Store a freshly queried window class, stamping the cache with the query
    /// time, and decide the commands for the scroll that needed the query.
    pub fn resolve_scroll(&mut self, delta: i32, window_class: String, now_ms: u64) -> (r: Vec<String>)
        ensures
            final(self).gestures == old(self).gestures,
            final(self).scroll_rules == old(self).scroll_rules,
            final(self).focus_poll_ms == old(self).focus_poll_ms,
            final(self).focus_last_ms == Some(now_ms),
            final(self).focus_class@ == window_class@,
            strings_view(r@) == spec_scroll_commands(old(self).scroll_rules@, window_class@, delta as int),
    {
        let commands = self.scroll_commands(window_class.as_str(), delta);
        self.focus_last_ms = Some(now_ms);
        self.focus_class = window_class;
        commands
    }
}

/// Cache staleness, fresh side: any two scroll events dispatched less than
/// `focus_poll_ms` after the last stored query are answered from the identical
/// cached class, and neither asks for a new external query.
pub proof fn lemma_cache_hit_is_stable(h: EventHandler, d1: i32, d2: i32, t1: u64, t2: u64)
    requires
        cache_fresh(h.focus_last_ms, t1, h.focus_poll_ms),
        cache_fresh(h.focus_last_ms, t2, h.focus_poll_ms),
    ensures
        spec_handle_event(h, InputEvent::HorizontalScroll(d1), t1)
            == OutcomeView::Run(spec_scroll_commands(h.scroll_rules@, h.focus_class@, d1 as int)),
        spec_handle_event(h, InputEvent::HorizontalScroll(d2), t2)
            == OutcomeView::Run(spec_scroll_commands(h.scroll_rules@, h.focus_class@, d2 as int)),
{
}

/// Cache staleness, start side: before any class has been stored — as
/// `EventHandler::new` guarantees of a fresh dispatcher — every scroll event
/// asks for an external query, at whatever time the dispatcher was built and
/// the event arrives.
pub proof fn lemma_cache_starts_stale(h: EventHandler, delta: i32, now_ms: u64)
    requires
        h.focus_last_ms is None,
    ensures
        spec_handle_event(h, InputEvent::HorizontalScroll(delta), now_ms) == OutcomeView::Query,
{
}

/// Cache staleness, stale side: a scroll event dispatched at least
/// `focus_poll_ms` after the last stored query always asks for exactly one
/// fresh external query.
pub proof fn lemma_cache_expiry(h: EventHandler, delta: i32, now_ms: u64)
    requires
        !cache_fresh(h.focus_last_ms, now_ms, h.focus_poll_ms),
    ensures
        spec_handle_event(h, InputEvent::HorizontalScroll(delta), now_ms) == OutcomeView::Query,
{
}

/// Read the focused window's class out of the focus query's output, degrading
/// every failure to the empty class, which matches no scroll rule.
pub fn extract_window_class(output: Option<Vec<u8>>) -> (r: String)
    ensures
        output matches Some(b) ==> r@ == spec_window_class(Some(b@)),
        output is None ==> r@ == Seq::<char>::empty(),
{
    match output {
        Some(bytes) => match json_string_field(bytes.as_slice(), "class") {
            Some(class) => class,
            None => String::new(),
        },
        None => String::new(),
    }
}


} // verus!
