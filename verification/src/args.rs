//! From the raw command line to a plan: which tokens count, what they
//! add up to, and whether the confirmation gate stands before the copy.

use vstd::prelude::*;
use vstd::string::*;
use crate::text::{
    chars_of, find_char, first_index, join, joined, lemma_first_index, lemma_first_index_is,
    same_text, texts,
};

verus! {

/// A flag that only asks the wrapped tool about itself. It pre-empts every
/// other argument, and with them the confirmation.
#[derive(Debug, Clone, Copy, PartialEq, Eq, Structural)]
pub enum OverrideFlag {
    Version,
    Help,
}

/// The token that stands for a flag.
pub open spec fn flag_text(flag: OverrideFlag) -> Seq<char> {
    match flag {
        OverrideFlag::Version => "--version"@,
        OverrideFlag::Help => "--help"@,
    }
}

/// The flag that a token is, if it is one.
pub open spec fn flag_of(token: Seq<char>) -> Option<OverrideFlag> {
    if token == "--version"@ {
        Some(OverrideFlag::Version)
    } else if token == "--help"@ {
        Some(OverrideFlag::Help)
    } else {
        None
    }
}

/// Whether a token is an option: it has the shape `key=value`.
pub open spec fn is_option(token: Seq<char>) -> bool {
    token.contains('=')
}

/// The key of an option: what stands before its first `=`.
pub open spec fn option_key(token: Seq<char>) -> Seq<char> {
    token.take(first_index(token, '='))
}

/// The value of an option: what stands behind its first `=`, up to the
/// next `=` if there is one.
pub open spec fn option_value(token: Seq<char>) -> Seq<char> {
    let rest = token.skip(first_index(token, '=') + 1);
    rest.take(first_index(rest, '='))
}

impl OverrideFlag {
    /// The token that stands for this flag.
    pub fn text(&self) -> (token: &'static str)
        ensures
            token@ == flag_text(*self),
    {
        match self {
            OverrideFlag::Version => "--version",
            OverrideFlag::Help => "--help",
        }
    }

    /// Reads a token as a flag.
    pub fn read(token: &str) -> (flag: Option<OverrideFlag>)
        ensures
            flag == flag_of(token@),
    {
        if same_text(token, "--version") {
            Some(OverrideFlag::Version)
        } else if same_text(token, "--help") {
            Some(OverrideFlag::Help)
        } else {
            None
        }
    }
}

/// Splits an option into its key and its value; `None` for a token that is
/// no option.
pub fn split_option(token: &str) -> (pair: Option<(String, String)>)
    ensures
        match pair {
            Some((key, value)) => is_option(token@) && key@ == option_key(token@) && value@
                == option_value(token@),
            None => !is_option(token@),
        },
{
    let chars = chars_of(token);
    let n: usize = chars.len();
    proof {
        lemma_first_index(token@, '=');
        assert(token@.skip(0) =~= token@);
    }
    let first: usize = find_char(&chars, 0, '=');
    if first >= n {
        return None;
    }
    let second: usize = find_char(&chars, first + 1, '=');
    let key = token.substring_char(0, first);
    let value = token.substring_char(first + 1, second);
    proof {
        let rest = token@.skip(first + 1);
        assert(token@.subrange(0, first as int) =~= token@.take(first as int));
        assert(token@.subrange(first + 1, second as int) =~= rest.take(second - (first + 1)));
    }
    Some((key.to_owned(), value.to_owned()))
}

/// The keys of a list of options, in its order.
pub open spec fn keys(options: Seq<(Seq<char>, Seq<char>)>) -> Seq<Seq<char>> {
    Seq::new(options.len(), |i: int| options[i].0)
}

/// No key stands twice in the list.
pub open spec fn distinct_keys(options: Seq<(Seq<char>, Seq<char>)>) -> bool {
    forall|i: int, j: int| 0 <= i < j < options.len() ==> options[i].0 != options[j].0
}

/// The value that the list holds for a key, if it holds the key.
pub open spec fn value_of(options: Seq<(Seq<char>, Seq<char>)>, key: Seq<char>) -> Option<
    Seq<char>,
> {
    let at = first_index(keys(options), key);
    if at < options.len() {
        Some(options[at].1)
    } else {
        None
    }
}

/// The list after an option is put in: a key that is already there keeps
/// its place and gets the new value, a new key goes to the end.
pub open spec fn put(options: Seq<(Seq<char>, Seq<char>)>, key: Seq<char>, value: Seq<char>) -> Seq<
    (Seq<char>, Seq<char>),
> {
    let at = first_index(keys(options), key);
    if at < options.len() {
        options.update(at, (key, value))
    } else {
        options.push((key, value))
    }
}

/// The mathematical content of `Arguments`.
pub ghost struct ArgumentsView {
    pub flag: Option<OverrideFlag>,
    pub options: Seq<(Seq<char>, Seq<char>)>,
}

/// The arguments that count: either one override flag and nothing else, or
/// options with one value for each key.
#[derive(Debug, Clone, PartialEq, Eq)]
pub struct Arguments {
    flag: Option<OverrideFlag>,
    options: Vec<(String, String)>,
}

impl View for Arguments {
    type V = ArgumentsView;

    closed spec fn view(&self) -> ArgumentsView {
        ArgumentsView {
            flag: self.flag,
            options: Seq::new(
                self.options@.len(),
                |i: int| (self.options@[i].0@, self.options@[i].1@),
            ),
        }
    }
}

impl Arguments {
    /// No key occurs twice, and a flag stands alone.
    pub open spec fn well_formed(&self) -> bool {
        &&& distinct_keys(self@.options)
        &&& self@.flag is Some ==> self@.options.len() == 0
    }

    /// No arguments at all.
    pub fn new() -> (empty: Arguments)
        ensures
            empty@.flag is None,
            empty@.options == Seq::<(Seq<char>, Seq<char>)>::empty(),
            empty.well_formed(),
    {
        Arguments { flag: None, options: Vec::new() }
    }

    /// One override flag, alone.
    pub fn only(flag: OverrideFlag) -> (single: Arguments)
        ensures
            single@.flag == Some(flag),
            single@.options == Seq::<(Seq<char>, Seq<char>)>::empty(),
            single.well_formed(),
    {
        Arguments { flag: Some(flag), options: Vec::new() }
    }

    /// The place of a key among the options, or their number where it is
    /// not held.
    fn position(&self, key: &str) -> (at: usize)
        ensures
            at == first_index(keys(self@.options), key@),
            at <= self@.options.len(),
            self@.options.len() == self.options@.len(),
    {
        let wanted: String = key.to_owned();
        let mut i: usize = 0;
        while i < self.options.len() && !(self.options[i].0 == wanted)
            invariant
                i <= self.options@.len(),
                wanted@ == key@,
                forall|k: int| 0 <= k < i ==> keys(self@.options)[k] != key@,
            decreases self.options@.len() - i,
        {
            i += 1;
        }
        proof {
            lemma_first_index_is(keys(self@.options), key@, i as int);
        }
        i
    }

    /// Whether an option with this key is held.
    pub fn contains_key(&self, key: &str) -> (held: bool)
        ensures
            held == value_of(self@.options, key@) is Some,
            held == keys(self@.options).contains(key@),
    {
        proof {
            lemma_first_index(keys(self@.options), key@);
        }
        self.position(key) < self.options.len()
    }

    /// The value held for a key.
    pub fn get(&self, key: &str) -> (value: Option<&String>)
        ensures
            match value_of(self@.options, key@) {
                Some(held) => value is Some && value.unwrap()@ == held,
                None => value is None,
            },
    {
        let at: usize = self.position(key);
        if at < self.options.len() {
            Some(&self.options[at].1)
        } else {
            None
        }
    }

    /// The override flag, if these arguments are one.
    pub fn flag(&self) -> (flag: Option<OverrideFlag>)
        ensures
            flag == self@.flag,
    {
        self.flag
    }

    /// How many options are held.
    pub fn len(&self) -> (count: usize)
        ensures
            count == self@.options.len(),
    {
        self.options.len()
    }

    /// Puts an option in. The value last put in for a key is the one held.
    /// Beside an override flag nothing is held: the option is dropped.
    pub fn insert(&mut self, key: String, value: String)
        requires
            old(self).well_formed(),
        ensures
            final(self)@.flag == old(self)@.flag,
            final(self)@.options == if old(self)@.flag is None {
                put(old(self)@.options, key@, value@)
            } else {
                old(self)@.options
            },
            final(self).well_formed(),
    {
        if self.flag.is_some() {
            return ;
        }
        let at: usize = self.position(key.as_str());
        let ghost before = self@.options;
        if at < self.options.len() {
            self.options.set(at, (key, value));
        } else {
            self.options.push((key, value));
        }
        proof {
            assert(self@.options =~= put(before, key@, value@));
            lemma_put(before, key@, value@);
        }
    }
}

/// The first override flag among the tokens, if there is one.
pub open spec fn first_flag(tokens: Seq<Seq<char>>) -> Option<OverrideFlag>
    decreases tokens.len(),
{
    if tokens.len() == 0 {
        None
    } else {
        match first_flag(tokens.drop_last()) {
            Some(flag) => Some(flag),
            None => flag_of(tokens.last()),
        }
    }
}

/// The options among the tokens, each key where it first occurred, with
/// the value that was given for it last. Tokens that are no options do
/// not count.
pub open spec fn options_of(tokens: Seq<Seq<char>>) -> Seq<(Seq<char>, Seq<char>)>
    decreases tokens.len(),
{
    if tokens.len() == 0 {
        Seq::empty()
    } else {
        let before = options_of(tokens.drop_last());
        let token = tokens.last();
        if is_option(token) {
            put(before, option_key(token), option_value(token))
        } else {
            before
        }
    }
}

/// What the tokens add up to: the first override flag alone where there is
/// one, else the options.
pub open spec fn parsed(tokens: Seq<Seq<char>>) -> ArgumentsView {
    match first_flag(tokens) {
        Some(flag) => ArgumentsView { flag: Some(flag), options: Seq::empty() },
        None => ArgumentsView { flag: None, options: options_of(tokens) },
    }
}

/// A flag found among the first `count` tokens is the first flag of all.
pub proof fn lemma_first_flag_prefix(tokens: Seq<Seq<char>>, count: int)
    requires
        0 <= count <= tokens.len(),
        first_flag(tokens.take(count)) is Some,
    ensures
        first_flag(tokens) == first_flag(tokens.take(count)),
    decreases tokens.len(),
{
    if count == tokens.len() {
        assert(tokens.take(count) =~= tokens);
    } else {
        assert(tokens.drop_last().take(count) =~= tokens.take(count));
        lemma_first_flag_prefix(tokens.drop_last(), count);
    }
}

/// Separates the raw arguments into what counts. A token of the shape
/// `key=value` is an option, `--version` and `--help` are override flags,
/// and every other token is dropped. The first override flag discards all
/// options, those before it and those behind it.
pub fn parse_arguments(args: &Vec<String>) -> (arguments: Arguments)
    ensures
        arguments@ == parsed(texts(args@)),
        arguments.well_formed(),
{
    let ghost tokens = texts(args@);
    let mut arguments = Arguments::new();
    let mut i: usize = 0;
    assert(tokens.take(0) =~= Seq::<Seq<char>>::empty());
    while i < args.len()
        invariant
            i <= args.len(),
            tokens == texts(args@),
            first_flag(tokens.take(i as int)) is None,
            arguments@.flag is None,
            arguments@.options == options_of(tokens.take(i as int)),
            arguments.well_formed(),
        decreases args.len() - i,
    {
        let token: &str = args[i].as_str();
        proof {
            assert(tokens.take(i + 1).drop_last() =~= tokens.take(i as int));
            assert(tokens.take(i + 1).last() == token@);
        }
        match OverrideFlag::read(token) {
            Some(flag) => {
                proof {
                    lemma_first_flag_prefix(tokens, i + 1);
                }
                return Arguments::only(flag);
            },
            None => {},
        }
        match split_option(token) {
            Some((key, value)) => {
                arguments.insert(key, value);
            },
            None => {},
        }
        i += 1;
    }
    assert(tokens.take(i as int) =~= tokens);
    arguments
}

/// An option as one token, `key=value`.
pub open spec fn option_text(option: (Seq<char>, Seq<char>)) -> Seq<char> {
    option.0 + seq!['='] + option.1
}

/// The tokens for the wrapped tool: the flag alone, or one token for each
/// option.
pub open spec fn tool_tokens(arguments: ArgumentsView) -> Seq<Seq<char>> {
    match arguments.flag {
        Some(flag) => seq![flag_text(flag)],
        None => Seq::new(arguments.options.len(), |i: int| option_text(arguments.options[i])),
    }
}

/// The pass-through line: the tokens for the wrapped tool, joined by
/// single spaces.
pub open spec fn passthrough(arguments: ArgumentsView) -> Seq<char> {
    joined(tool_tokens(arguments))
}

impl Arguments {
    /// The tokens for the wrapped tool, one for the flag or one for each
    /// option, in the order in which the keys first came.
    pub fn tokens(&self) -> (tokens: Vec<String>)
        ensures
            texts(tokens@) == tool_tokens(self@),
    {
        let mut tokens: Vec<String> = Vec::new();
        match self.flag {
            Some(flag) => {
                tokens.push(flag.text().to_owned());
                assert(texts(tokens@) =~= tool_tokens(self@));
                return tokens;
            },
            None => {},
        }
        let mut i: usize = 0;
        while i < self.options.len()
            invariant
                i <= self.options@.len(),
                self@.flag is None,
                tokens@.len() == i,
                forall|k: int| 0 <= k < i ==> (#[trigger] tokens@[k])@ == option_text(self@.options[k]),
            decreases self.options@.len() - i,
        {
            proof {
                reveal_strlit("=");
                assert("="@ =~= seq!['=']);
            }
            let mut token: String = self.options[i].0.clone();
            token.append("=");
            token.append(self.options[i].1.as_str());
            tokens.push(token);
            i += 1;
        }
        assert(texts(tokens@) =~= tool_tokens(self@));
        tokens
    }
}

/// Puts the arguments back into one line for the wrapped tool: the flag
/// alone, or every option as `key=value`, joined by single spaces.
pub fn unparse_args(args: &Arguments) -> (line: String)
    ensures
        line@ == passthrough(args@),
{
    let tokens = args.tokens();
    join(&tokens)
}

/// What is to be done with the wrapped tool.
#[derive(Debug, Clone, PartialEq, Eq)]
pub enum ActionPlan {
    /// Ask for confirmation on `target` first, and run only if it is given.
    GatedExecution { target: String, passthrough: String },
    /// Run at once.
    UnconditionalExecution { passthrough: String },
}

/// The mathematical content of an `ActionPlan`.
pub ghost enum PlanView {
    Gated { target: Seq<char>, passthrough: Seq<char> },
    Unconditional { passthrough: Seq<char> },
}

impl View for ActionPlan {
    type V = PlanView;

    open spec fn view(&self) -> PlanView {
        match self {
            ActionPlan::GatedExecution { target, passthrough } => PlanView::Gated {
                target: target@,
                passthrough: passthrough@,
            },
            ActionPlan::UnconditionalExecution { passthrough } => PlanView::Unconditional {
                passthrough: passthrough@,
            },
        }
    }
}

/// The key of the option that names the output target.
pub open spec fn output_key() -> Seq<char> {
    "of"@
}

/// The plan for given arguments: gated on the output target where one is
/// named and no override flag was given, else unconditional.
pub open spec fn plan_of(arguments: ArgumentsView) -> PlanView {
    match value_of(arguments.options, output_key()) {
        Some(target) => if arguments.flag is None {
            PlanView::Gated { target, passthrough: passthrough(arguments) }
        } else {
            PlanView::Unconditional { passthrough: passthrough(arguments) }
        },
        None => PlanView::Unconditional { passthrough: passthrough(arguments) },
    }
}

/// Maps arguments that were already separated to a plan.
pub fn plan_for(arguments: &Arguments) -> (plan: ActionPlan)
    ensures
        plan@ == plan_of(arguments@),
{
    let passthrough = unparse_args(arguments);
    if arguments.flag().is_some() {
        return ActionPlan::UnconditionalExecution { passthrough };
    }
    match arguments.get("of") {
        Some(target) => ActionPlan::GatedExecution { target: target.clone(), passthrough },
        None => ActionPlan::UnconditionalExecution { passthrough },
    }
}

/// Maps the raw arguments to a plan.
pub fn plan(raw_args: &Vec<String>) -> (plan: ActionPlan)
    ensures
        plan@ == plan_of(parsed(texts(raw_args@))),
{
    let arguments = parse_arguments(raw_args);
    plan_for(&arguments)
}

/// Where any token is an override flag, the first such flag is all that is
/// left: no option survives, whatever the other tokens are, and the plan is
/// to run unconditionally with that flag alone.
pub proof fn law_override_flag_wins(tokens: Seq<Seq<char>>)
    requires
        exists|i: int| 0 <= i < tokens.len() && (#[trigger] flag_of(tokens[i])) is Some,
    ensures
        first_flag(tokens) is Some,
        exists|i: int|
            0 <= i < tokens.len() && #[trigger] flag_of(tokens[i]) == first_flag(tokens) && forall|
                k: int,
            |
                0 <= k < i ==> (#[trigger] flag_of(tokens[k])) is None,
        parsed(tokens) == (ArgumentsView { flag: first_flag(tokens), options: Seq::empty() }),
        plan_of(parsed(tokens)) == (PlanView::Unconditional {
            passthrough: flag_text(first_flag(tokens).unwrap()),
        }),
{
    lemma_first_flag_absent(tokens);
    lemma_first_flag_place(tokens);
    let only = ArgumentsView { flag: first_flag(tokens), options: Seq::empty() };
    assert(keys(only.options) =~= Seq::<Seq<char>>::empty());
    assert(tool_tokens(only) =~= seq![flag_text(first_flag(tokens).unwrap())]);
}

/// The first flag stands at some place, and no flag stands before it.
pub proof fn lemma_first_flag_place(tokens: Seq<Seq<char>>)
    requires
        first_flag(tokens) is Some,
    ensures
        exists|i: int|
            0 <= i < tokens.len() && #[trigger] flag_of(tokens[i]) == first_flag(tokens) && forall|
                k: int,
            |
                0 <= k < i ==> (#[trigger] flag_of(tokens[k])) is None,
    decreases tokens.len(),
{
    let front = tokens.drop_last();
    if first_flag(front) is Some {
        lemma_first_flag_place(front);
        let i = choose|i: int|
            0 <= i < front.len() && #[trigger] flag_of(front[i]) == first_flag(front) && forall|
                k: int,
            |
                0 <= k < i ==> (#[trigger] flag_of(front[k])) is None;
        assert(flag_of(tokens[i]) == first_flag(tokens));
        assert forall|k: int| 0 <= k < i implies (#[trigger] flag_of(tokens[k])) is None by {
            assert(front[k] == tokens[k]);
        }
    } else {
        lemma_first_flag_absent(front);
        let last = tokens.len() - 1;
        assert(flag_of(tokens[last]) == first_flag(tokens));
        assert forall|k: int| 0 <= k < last implies (#[trigger] flag_of(tokens[k])) is None by {
            assert(front[k] == tokens[k]);
        }
    }
}

/// Where no flag is found, no token is one.
pub proof fn lemma_first_flag_absent(tokens: Seq<Seq<char>>)
    ensures
        first_flag(tokens) is None <==> forall|i: int|
            0 <= i < tokens.len() ==> (#[trigger] flag_of(tokens[i])) is None,
    decreases tokens.len(),
{
    if tokens.len() > 0 {
        let front = tokens.drop_last();
        lemma_first_flag_absent(front);
        if first_flag(tokens) is None {
            assert forall|i: int| 0 <= i < tokens.len() implies (#[trigger] flag_of(
                tokens[i],
            )) is None by {
                if i < front.len() {
                    assert(front[i] == tokens[i]);
                }
            }
        } else if first_flag(front) is Some {
            let i = choose|i: int| 0 <= i < front.len() && (#[trigger] flag_of(front[i])) is Some;
            assert(tokens[i] == front[i]);
        }
    }
}

/// A token that is neither an option nor an override flag has no effect:
/// with it or without it, at any place, the arguments add up to the same,
/// and so does the plan.
pub proof fn law_plain_token_is_dropped(
    before: Seq<Seq<char>>,
    token: Seq<char>,
    after: Seq<Seq<char>>,
)
    requires
        !is_option(token),
        flag_of(token) is None,
    ensures
        first_flag(before + seq![token] + after) == first_flag(before + after),
        options_of(before + seq![token] + after) == options_of(before + after),
        parsed(before + seq![token] + after) == parsed(before + after),
        plan_of(parsed(before + seq![token] + after)) == plan_of(parsed(before + after)),
    decreases after.len(),
{
    let with = before + seq![token] + after;
    let without = before + after;
    if after.len() == 0 {
        assert(with.drop_last() =~= before);
        assert(without =~= before);
        assert(with.last() == token);
    } else {
        let shorter = after.drop_last();
        law_plain_token_is_dropped(before, token, shorter);
        assert(with.drop_last() =~= before + seq![token] + shorter);
        assert(without.drop_last() =~= before + shorter);
        assert(with.last() == after.last());
        assert(without.last() == after.last());
    }
}

/// What `put` does to a list without repeated keys: the key holds the new
/// value, every other key holds what it held, and no key is repeated.
pub proof fn lemma_put(options: Seq<(Seq<char>, Seq<char>)>, key: Seq<char>, value: Seq<char>)
    requires
        distinct_keys(options),
    ensures
        distinct_keys(put(options, key, value)),
        value_of(put(options, key, value), key) == Some(value),
        forall|other: Seq<char>|
            other != key ==> #[trigger] value_of(put(options, key, value), other) == value_of(
                options,
                other,
            ),
{
    let at = first_index(keys(options), key);
    let after = put(options, key, value);
    lemma_first_index(keys(options), key);
    if at < options.len() {
        assert(keys(after) =~= keys(options));
    } else {
        assert(keys(after) =~= keys(options).push(key));
        assert forall|i: int, j: int| 0 <= i < j < after.len() implies after[i].0 != after[j].0 by {
            if j == options.len() {
                assert(keys(options)[i] == options[i].0);
            }
        }
        assert forall|k: int| 0 <= k < at implies keys(after)[k] != key by {
            assert(keys(options)[k] == keys(after)[k]);
        }
        lemma_first_index_is(keys(after), key, at);
    }
    assert forall|other: Seq<char>| other != key implies #[trigger] value_of(after, other)
        == value_of(options, other) by {
        let place = first_index(keys(options), other);
        lemma_first_index(keys(options), other);
        if place < options.len() {
            assert forall|k: int| 0 <= k < place implies keys(after)[k] != other by {
                assert(keys(after)[k] == keys(options)[k]);
            }
            assert(keys(after)[place] == keys(options)[place]);
            lemma_first_index_is(keys(after), other, place);
        } else {
            assert forall|k: int| 0 <= k < after.len() implies keys(after)[k] != other by {
                if k < options.len() {
                    assert(keys(after)[k] == keys(options)[k]);
                }
            }
            lemma_first_index_is(keys(after), other, after.len() as int);
        }
    }
}

/// The options hold each key once, and for a key the value that was given
/// for it last: an option behind which no option of the same key stands
/// has its value held.
pub proof fn law_last_value_wins(tokens: Seq<Seq<char>>, at: int)
    requires
        0 <= at < tokens.len(),
        is_option(tokens[at]),
        forall|k: int|
            at < k < tokens.len() && is_option(tokens[k]) ==> option_key(#[trigger] tokens[k])
                != option_key(tokens[at]),
    ensures
        distinct_keys(options_of(tokens)),
        value_of(options_of(tokens), option_key(tokens[at])) == Some(option_value(tokens[at])),
    decreases tokens.len(),
{
    let front = tokens.drop_last();
    let last = tokens.last();
    lemma_options_distinct(front);
    if is_option(last) {
        lemma_put(options_of(front), option_key(last), option_value(last));
    }
    if at < tokens.len() - 1 {
        assert(front[at] == tokens[at]);
        assert forall|k: int| at < k < front.len() && is_option(front[k]) implies option_key(
            #[trigger] front[k],
        ) != option_key(front[at]) by {
            assert(front[k] == tokens[k]);
        }
        law_last_value_wins(front, at);
        assert(tokens[tokens.len() - 1] == last);
    }
}

/// No key is repeated among the options.
pub proof fn lemma_options_distinct(tokens: Seq<Seq<char>>)
    ensures
        distinct_keys(options_of(tokens)),
    decreases tokens.len(),
{
    if tokens.len() > 0 {
        lemma_options_distinct(tokens.drop_last());
        if is_option(tokens.last()) {
            lemma_put(
                options_of(tokens.drop_last()),
                option_key(tokens.last()),
                option_value(tokens.last()),
            );
        }
    }
}

} // verus!
