//! The command pipeline: raw input is split into words, the first word
//! selects a command definition (checked against its declared argument
//! count), and the result is a typed command for the engine to execute.

use vstd::prelude::*;
use vstd::string::StringExecFns;

use crate::text::{lower, spec_decimal, spec_tokens, str_eq, to_ascii_lower, tokenize,
    u64_to_string};

verus! {

#[derive(Debug)]
pub struct CommandError {
    pub message: String,
}

impl CommandError {
    pub fn new(message: &str) -> (e: Self)
        ensures
            e.message@ == message@,
    {
        CommandError { message: message.to_owned() }
    }
}

#[derive(Debug)]
pub struct CommandDefinition {
    pub name: String,
    pub aliases: Vec<String>,
    pub description: String,
    pub expected_args: usize,
    pub arg_hints: Vec<String>,
}

/// Two command definitions that declare the same thing.
pub open spec fn def_eq(a: CommandDefinition, b: CommandDefinition) -> bool {
    &&& a.name@ == b.name@
    &&& a.aliases.deep_view() == b.aliases.deep_view()
    &&& a.description@ == b.description@
    &&& a.expected_args == b.expected_args
    &&& a.arg_hints.deep_view() == b.arg_hints.deep_view()
}

/// Copies a list of strings; the copy holds the same words.
fn copy_strings(v: &Vec<String>) -> (r: Vec<String>)
    ensures
        r@ == v@,
{
    let mut r: Vec<String> = Vec::new();
    let mut i: usize = 0;
    while i < v.len()
        invariant
            i <= v@.len(),
            r@ == v@.take(i as int),
        decreases v@.len() - i,
    {
        r.push(v[i].clone());
        proof {
            assert(v@.take(i + 1 as int) =~= v@.take(i as int).push(v@[i as int]));
        }
        i = i + 1;
    }
    proof {
        assert(v@.take(v@.len() as int) =~= v@);
    }
    r
}

impl Clone for CommandDefinition {
    fn clone(&self) -> (res: Self)
        ensures
            def_eq(*self, res),
    {
        let res = CommandDefinition {
            name: self.name.clone(),
            aliases: copy_strings(&self.aliases),
            description: self.description.clone(),
            expected_args: self.expected_args,
            arg_hints: copy_strings(&self.arg_hints),
        };
        proof {
            assert(res.aliases.deep_view() =~~= self.aliases.deep_view());
            assert(res.arg_hints.deep_view() =~~= self.arg_hints.deep_view());
        }
        res
    }
}

/// A resolved command: the (lowercased) word the user typed, the
/// definition it matched, and the remaining words.
#[derive(Debug)]
pub struct ParsedCommand {
    pub name: String,
    pub definition: CommandDefinition,
    pub args: Vec<String>,
}

#[derive(Debug)]
pub struct EndTurnCommand {
    pub name: String,
}

impl EndTurnCommand {
    pub fn new(name: &str) -> (c: Self)
        ensures
            c.name@ == name@,
    {
        EndTurnCommand { name: name.to_owned() }
    }
}

#[derive(Debug)]
pub struct QuitCommand {
    pub name: String,
}

impl QuitCommand {
    pub fn new(name: &str) -> (c: Self)
        ensures
            c.name@ == name@,
    {
        QuitCommand { name: name.to_owned() }
    }
}

#[derive(Debug)]
pub struct BuildCommand {
    pub name: String,
    pub building: String,
    pub planet: String,
}

impl BuildCommand {
    pub fn new(name: &str, building: &str, planet: &str) -> (c: Self)
        ensures
            c.name@ == name@,
            c.building@ == building@,
            c.planet@ == planet@,
    {
        BuildCommand {
            name: name.to_owned(),
            building: building.to_owned(),
            planet: planet.to_owned(),
        }
    }

    pub fn get_building(&self) -> (r: &str)
        ensures
            r@ == self.building@,
    {
        self.building.as_str()
    }

    pub fn get_planet(&self) -> (r: &str)
        ensures
            r@ == self.planet@,
    {
        self.planet.as_str()
    }
}

#[derive(Debug)]
pub enum CommandExecution {
    Help(ParsedCommand),
    Build(BuildCommand),
    EndTurn(EndTurnCommand),
    Quit(QuitCommand),
    UnknownInternal(ParsedCommand),
}

// --- the registry ------------------------------------------------------

/// The index of the first registry entry under the given key, or minus
/// one.
pub open spec fn spec_key_index(
    entries: Seq<(String, Vec<CommandDefinition>)>,
    name: Seq<char>,
) -> int
    decreases entries.len(),
{
    if entries.len() == 0 {
        -1
    } else if entries[0].0@ == name {
        0
    } else {
        let rest = spec_key_index(entries.drop_first(), name);
        if rest == -1 {
            -1
        } else {
            rest + 1
        }
    }
}

pub proof fn lemma_key_index_bounds(
    entries: Seq<(String, Vec<CommandDefinition>)>,
    name: Seq<char>,
)
    ensures
        spec_key_index(entries, name) == -1 || (0 <= spec_key_index(entries, name) < entries.len()
            && entries[spec_key_index(entries, name)].0@ == name),
        spec_key_index(entries, name) == -1 ==> forall|i: int|
            0 <= i < entries.len() ==> entries[i].0@ != name,
    decreases entries.len(),
{
    if entries.len() > 0 {
        lemma_key_index_bounds(entries.drop_first(), name);
        let rest = spec_key_index(entries.drop_first(), name);
        if entries[0].0@ != name {
            if rest == -1 {
                assert forall|i: int| 0 <= i < entries.len() implies entries[i].0@ != name by {
                    if i > 0 {
                        assert(entries.drop_first()[i - 1] == entries[i]);
                    }
                }
            } else {
                assert(entries.drop_first()[rest] == entries[rest + 1]);
            }
        }
    }
}

proof fn lemma_key_index_first(
    entries: Seq<(String, Vec<CommandDefinition>)>,
    name: Seq<char>,
    k: int,
)
    requires
        0 <= k < entries.len(),
        entries[k].0@ == name,
        forall|j: int| 0 <= j < k ==> entries[j].0@ != name,
    ensures
        spec_key_index(entries, name) == k,
    decreases entries.len(),
{
    if k > 0 {
        lemma_key_index_first(entries.drop_first(), name, k - 1);
    }
}

/// The index of the first definition declaring the given argument
/// count, or minus one.
pub open spec fn spec_arity_index(defs: Seq<CommandDefinition>, count: nat) -> int
    decreases defs.len(),
{
    if defs.len() == 0 {
        -1
    } else if defs[0].expected_args == count {
        0
    } else {
        let rest = spec_arity_index(defs.drop_first(), count);
        if rest == -1 {
            -1
        } else {
            rest + 1
        }
    }
}

pub proof fn lemma_arity_index_bounds(defs: Seq<CommandDefinition>, count: nat)
    ensures
        spec_arity_index(defs, count) == -1 || (0 <= spec_arity_index(defs, count) < defs.len()
            && defs[spec_arity_index(defs, count)].expected_args == count),
        spec_arity_index(defs, count) == -1 ==> forall|i: int|
            0 <= i < defs.len() ==> defs[i].expected_args != count,
    decreases defs.len(),
{
    if defs.len() > 0 {
        lemma_arity_index_bounds(defs.drop_first(), count);
        let rest = spec_arity_index(defs.drop_first(), count);
        if defs[0].expected_args != count {
            if rest == -1 {
                assert forall|i: int| 0 <= i < defs.len() implies defs[i].expected_args != count
                by {
                    if i > 0 {
                        assert(defs.drop_first()[i - 1] == defs[i]);
                    }
                }
            } else {
                assert(defs.drop_first()[rest] == defs[rest + 1]);
            }
        }
    }
}

proof fn lemma_arity_index_first(defs: Seq<CommandDefinition>, count: nat, k: int)
    requires
        0 <= k < defs.len(),
        defs[k].expected_args == count,
        forall|j: int| 0 <= j < k ==> defs[j].expected_args != count,
    ensures
        spec_arity_index(defs, count) == k,
    decreases defs.len(),
{
    if k > 0 {
        lemma_arity_index_first(defs.drop_first(), count, k - 1);
    }
}

/// The declared argument counts of a definition group, joined with
/// " or " for the arity-mismatch message.
pub open spec fn spec_counts_join(defs: Seq<CommandDefinition>) -> Seq<char>
    decreases defs.len(),
{
    if defs.len() == 0 {
        Seq::empty()
    } else if defs.len() == 1 {
        spec_decimal(defs[0].expected_args as int)
    } else {
        spec_decimal(defs[0].expected_args as int) + " or "@ + spec_counts_join(defs.drop_first())
    }
}

proof fn lemma_counts_join_push(defs: Seq<CommandDefinition>, d: CommandDefinition)
    ensures
        defs.len() == 0 ==> spec_counts_join(defs.push(d)) == spec_decimal(d.expected_args as int),
        defs.len() > 0 ==> spec_counts_join(defs.push(d)) == spec_counts_join(defs) + " or "@
            + spec_decimal(d.expected_args as int),
    decreases defs.len(),
{
    if defs.len() == 0 {
        assert(defs.push(d).len() == 1);
        assert(defs.push(d)[0] == d);
    } else {
        lemma_counts_join_push(defs.drop_first(), d);
        assert(defs.push(d).drop_first() =~= defs.drop_first().push(d));
        assert(defs.push(d)[0] == defs[0]);
        if defs.len() == 1 {
            assert(spec_counts_join(defs.push(d)) == spec_decimal(defs[0].expected_args as int)
                + " or "@ + spec_decimal(d.expected_args as int));
        } else {
            assert((spec_decimal(defs[0].expected_args as int) + " or "@ + (spec_counts_join(
                defs.drop_first(),
            ) + " or "@ + spec_decimal(d.expected_args as int))) =~= ((spec_decimal(
                defs[0].expected_args as int,
            ) + " or "@ + spec_counts_join(defs.drop_first())) + " or "@ + spec_decimal(
                d.expected_args as int,
            )));
        }
    }
}

/// Every definition of a keyed registry table, group after group.
pub open spec fn spec_flat_defs(
    entries: Seq<(String, Vec<CommandDefinition>)>,
) -> Seq<CommandDefinition>
    decreases entries.len(),
{
    if entries.len() == 0 {
        Seq::empty()
    } else {
        entries[0].1@ + spec_flat_defs(entries.drop_first())
    }
}

proof fn lemma_flat_defs_push(
    entries: Seq<(String, Vec<CommandDefinition>)>,
    e: (String, Vec<CommandDefinition>),
)
    ensures
        spec_flat_defs(entries.push(e)) == spec_flat_defs(entries) + e.1@,
    decreases entries.len(),
{
    if entries.len() == 0 {
        assert(entries.push(e)[0] == e);
        assert(entries.push(e).drop_first() =~= Seq::<(String, Vec<CommandDefinition>)>::empty());
        assert(spec_flat_defs(entries.push(e)) == e.1@ + spec_flat_defs(
            Seq::<(String, Vec<CommandDefinition>)>::empty(),
        ));
        assert(e.1@ + Seq::<CommandDefinition>::empty() =~= e.1@);
        assert(spec_flat_defs(entries) + e.1@ =~= e.1@);
    } else {
        lemma_flat_defs_push(entries.drop_first(), e);
        assert(entries.push(e).drop_first() =~= entries.drop_first().push(e));
        assert(entries.push(e)[0] == entries[0]);
        assert((entries[0].1@ + (spec_flat_defs(entries.drop_first()) + e.1@)) =~= ((entries[0].1@
            + spec_flat_defs(entries.drop_first())) + e.1@));
    }
}

/// The command registry: definition groups keyed by command name or
/// alias, as the external loader assembled them.
#[derive(Debug)]
pub struct CommandRegistry {
    pub definitions: Vec<(String, Vec<CommandDefinition>)>,
}

impl CommandRegistry {
    /// Wraps a keyed definition table assembled by the loader.
    pub fn new(definitions: Vec<(String, Vec<CommandDefinition>)>) -> (r: Self)
        ensures
            r.definitions@ == definitions@,
    {
        CommandRegistry { definitions }
    }

    /// Copies of every registered definition, group after group.
    pub fn get_all_command_definitions(&self) -> (r: Vec<CommandDefinition>)
        ensures
            ({
                let all = spec_flat_defs(self.definitions@);
                r@.len() == all.len() && forall|i: int|
                    0 <= i < all.len() ==> def_eq(#[trigger] r@[i], all[i])
            }),
    {
        let mut r: Vec<CommandDefinition> = Vec::new();
        let n = self.definitions.len();
        let mut i: usize = 0;
        while i < n
            invariant
                n == self.definitions@.len(),
                i <= n,
                r@.len() == spec_flat_defs(self.definitions@.take(i as int)).len(),
                forall|k: int|
                    0 <= k < r@.len() ==> def_eq(
                        #[trigger] r@[k],
                        spec_flat_defs(self.definitions@.take(i as int))[k],
                    ),
            decreases n - i,
        {
            let group = &self.definitions[i].1;
            let m = group.len();
            let mut j: usize = 0;
            while j < m
                invariant
                    n == self.definitions@.len(),
                    i < n,
                    m == group@.len(),
                    j <= m,
                    group == &self.definitions@[i as int].1,
                    r@.len() == spec_flat_defs(self.definitions@.take(i as int)).len() + j,
                    forall|k: int|
                        0 <= k < spec_flat_defs(self.definitions@.take(i as int)).len()
                            ==> def_eq(
                            #[trigger] r@[k],
                            spec_flat_defs(self.definitions@.take(i as int))[k],
                        ),
                    forall|k: int|
                        0 <= k < j ==> def_eq(
                            #[trigger] r@[spec_flat_defs(self.definitions@.take(i as int)).len()
                                + k],
                            group@[k],
                        ),
                decreases m - j,
            {
                r.push(group[j].clone());
                j = j + 1;
            }
            proof {
                assert(self.definitions@.take(i + 1 as int) =~= self.definitions@.take(
                    i as int,
                ).push(self.definitions@[i as int]));
                lemma_flat_defs_push(
                    self.definitions@.take(i as int),
                    self.definitions@[i as int],
                );
                let prefix = spec_flat_defs(self.definitions@.take(i as int));
                let whole = spec_flat_defs(self.definitions@.take(i + 1 as int));
                assert(whole == prefix + self.definitions@[i as int].1@);
                assert forall|k: int| 0 <= k < r@.len() implies def_eq(#[trigger] r@[k], whole[k])
                by {
                    if k < prefix.len() {
                        assert(whole[k] == prefix[k]);
                    } else {
                        assert(whole[k] == self.definitions@[i as int].1@[k - prefix.len()]);
                        assert(def_eq(
                            r@[spec_flat_defs(self.definitions@.take(i as int)).len() + (k
                                - prefix.len())],
                            group@[k - prefix.len()],
                        ));
                    }
                }
            }
            i = i + 1;
        }
        proof {
            assert(self.definitions@.take(n as int) =~= self.definitions@);
        }
        r
    }

    /// Resolves raw input against this registry; the registry-side face
    /// of the pipeline in `CommandExecution::parse`.
    pub fn parse(&self, input: &str) -> (r: Result<CommandExecution, CommandError>)
        ensures
            ({
                match spec_parse(self.definitions@, input@) {
                    ParsedKind::HelpCmd { name, def, args } => r matches Ok(
                        CommandExecution::Help(pc),
                    ) && pc.name@ == name && def_eq(pc.definition, def) && pc.args.deep_view()
                        == args,
                    ParsedKind::BuildCmd { name, building, planet } => r matches Ok(
                        CommandExecution::Build(bc),
                    ) && bc.name@ == name && bc.building@ == building && bc.planet@ == planet,
                    ParsedKind::EndTurnCmd { name } => r matches Ok(CommandExecution::EndTurn(c))
                        && c.name@ == name,
                    ParsedKind::QuitCmd { name } => r matches Ok(CommandExecution::Quit(c))
                        && c.name@ == name,
                    ParsedKind::OtherCmd { name, def, args } => r matches Ok(
                        CommandExecution::UnknownInternal(pc),
                    ) && pc.name@ == name && def_eq(pc.definition, def) && pc.args.deep_view()
                        == args,
                    _ => r matches Err(e) && e.message@ == parse_err_message(
                        spec_parse(self.definitions@, input@),
                    ),
                }
            }),
    {
        CommandExecution::parse(self, input)
    }

    /// The definition group registered under a name or alias.
    pub fn get_command_definitions(&self, command_name: &str) -> (r: Option<
        &Vec<CommandDefinition>,
    >)
        ensures
            ({
                let idx = spec_key_index(self.definitions@, command_name@);
                match r {
                    Some(defs) => idx != -1 && *defs == self.definitions@[idx].1,
                    None => idx == -1,
                }
            }),
    {
        let n = self.definitions.len();
        let mut i: usize = 0;
        while i < n
            invariant
                n == self.definitions@.len(),
                i <= n,
                forall|j: int| 0 <= j < i ==> self.definitions@[j].0@ != command_name@,
            decreases n - i,
        {
            if str_eq(self.definitions[i].0.as_str(), command_name) {
                proof {
                    lemma_key_index_first(self.definitions@, command_name@, i as int);
                }
                return Some(&self.definitions[i].1);
            }
            i = i + 1;
        }
        proof {
            lemma_key_index_bounds(self.definitions@, command_name@);
        }
        None
    }
}

// --- parsing -----------------------------------------------------------

/// What a piece of raw input resolves to, before execution: either a
/// typed command, or the reason it was rejected.
pub enum ParsedKind {
    NoInput,
    UnknownName { name: Seq<char> },
    WrongArity { name: Seq<char>, count: nat, defs: Seq<CommandDefinition> },
    HelpCmd { name: Seq<char>, def: CommandDefinition, args: Seq<Seq<char>> },
    BuildCmd { name: Seq<char>, building: Seq<char>, planet: Seq<char> },
    BuildMissingArgs,
    EndTurnCmd { name: Seq<char> },
    EndTurnArgs,
    QuitCmd { name: Seq<char> },
    QuitArgs,
    OtherCmd { name: Seq<char>, def: CommandDefinition, args: Seq<Seq<char>> },
}

/// How the pipeline resolves raw input against a registry: the first
/// word, lowercased, selects a definition group; the group must hold a
/// definition declaring exactly the number of remaining words; the
/// lowercased first word then decides the command's kind.
pub open spec fn spec_parse(
    entries: Seq<(String, Vec<CommandDefinition>)>,
    input: Seq<char>,
) -> ParsedKind {
    let toks = spec_tokens(input);
    if toks.len() == 0 {
        ParsedKind::NoInput
    } else {
        let name = lower(toks[0]);
        let kidx = spec_key_index(entries, name);
        if kidx == -1 {
            ParsedKind::UnknownName { name }
        } else {
            let defs = entries[kidx].1@;
            let count = (toks.len() - 1) as nat;
            let aidx = spec_arity_index(defs, count);
            if aidx == -1 {
                ParsedKind::WrongArity { name, count, defs }
            } else {
                let def = defs[aidx];
                let args = toks.drop_first();
                if name == "help"@ {
                    ParsedKind::HelpCmd { name, def, args }
                } else if name == "build"@ {
                    if args.len() >= 2 {
                        ParsedKind::BuildCmd { name, building: args[0], planet: args[1] }
                    } else {
                        ParsedKind::BuildMissingArgs
                    }
                } else if name == "endturn"@ {
                    if args.len() == 0 {
                        ParsedKind::EndTurnCmd { name }
                    } else {
                        ParsedKind::EndTurnArgs
                    }
                } else if name == "quit"@ {
                    if args.len() == 0 {
                        ParsedKind::QuitCmd { name }
                    } else {
                        ParsedKind::QuitArgs
                    }
                } else {
                    ParsedKind::OtherCmd { name, def, args }
                }
            }
        }
    }
}

/// The first definition in a group declaring the given argument count.
fn find_arity(defs: &Vec<CommandDefinition>, count: usize) -> (r: Option<usize>)
    ensures
        ({
            let idx = spec_arity_index(defs@, count as nat);
            match r {
                Some(i) => idx == i && i < defs@.len() && defs@[i as int].expected_args == count,
                None => idx == -1,
            }
        }),
{
    let mut a: usize = 0;
    while a < defs.len()
        invariant
            a <= defs@.len(),
            forall|k: int| 0 <= k < a ==> defs@[k].expected_args != count,
        decreases defs@.len() - a,
    {
        if defs[a].expected_args == count {
            proof {
                lemma_arity_index_first(defs@, count as nat, a as int);
            }
            return Some(a);
        }
        a = a + 1;
    }
    proof {
        lemma_arity_index_bounds(defs@, count as nat);
    }
    None
}

/// The one-line message a rejected input is reported with.
pub open spec fn parse_err_message(pk: ParsedKind) -> Seq<char> {
    match pk {
        ParsedKind::NoInput => "No command provided. Type 'help' for options."@,
        ParsedKind::UnknownName { name } => "Unknown command: '"@ + name
            + "'. Type 'help' for available commands."@,
        ParsedKind::WrongArity { name, count, defs } => "Error: Wrong number of arguments for command '"@
            + name + "'. Got "@ + spec_decimal(count as int) + ", expected "@ + spec_counts_join(
            defs,
        ) + "."@,
        ParsedKind::BuildMissingArgs => "Not enough arguments for build command."@,
        ParsedKind::EndTurnArgs => "End turn command does not accept any arguments."@,
        ParsedKind::QuitArgs => "Quit command does not accept any arguments."@,
        _ => Seq::empty(),
    }
}

impl CommandExecution {
    /// Resolves raw input into a typed command, or a one-line error.
    pub fn parse(command_registry: &CommandRegistry, input: &str) -> (r: Result<
        CommandExecution,
        CommandError,
    >)
        ensures
            ({
                match spec_parse(command_registry.definitions@, input@) {
                    ParsedKind::HelpCmd { name, def, args } => r matches Ok(
                        CommandExecution::Help(pc),
                    ) && pc.name@ == name && def_eq(pc.definition, def) && pc.args.deep_view()
                        == args,
                    ParsedKind::BuildCmd { name, building, planet } => r matches Ok(
                        CommandExecution::Build(bc),
                    ) && bc.name@ == name && bc.building@ == building && bc.planet@ == planet,
                    ParsedKind::EndTurnCmd { name } => r matches Ok(CommandExecution::EndTurn(c))
                        && c.name@ == name,
                    ParsedKind::QuitCmd { name } => r matches Ok(CommandExecution::Quit(c))
                        && c.name@ == name,
                    ParsedKind::OtherCmd { name, def, args } => r matches Ok(
                        CommandExecution::UnknownInternal(pc),
                    ) && pc.name@ == name && def_eq(pc.definition, def) && pc.args.deep_view()
                        == args,
                    _ => r matches Err(e) && e.message@ == parse_err_message(
                        spec_parse(command_registry.definitions@, input@),
                    ),
                }
            }),
    {
        let tokens = tokenize(input);
        if tokens.len() == 0 {
            proof {
                assert(spec_tokens(input@).len() == 0);
            }
            return Err(CommandError::new("No command provided. Type 'help' for options."));
        }
        proof {
            assert(tokens.deep_view()[0] == tokens@[0]@);
        }
        let command_name = to_ascii_lower(tokens[0].as_str());
        let mut provided_args: Vec<String> = Vec::new();
        let mut j: usize = 1;
        while j < tokens.len()
            invariant
                1 <= j <= tokens@.len(),
                provided_args@.len() == j - 1,
                forall|k: int| 0 <= k < j - 1 ==> provided_args@[k] == tokens@[k + 1],
            decreases tokens@.len() - j,
        {
            provided_args.push(tokens[j].clone());
            j = j + 1;
        }
        proof {
            assert(provided_args.deep_view() =~~= tokens.deep_view().drop_first());
        }
        let provided_arg_count = provided_args.len();
        let possible_defs = match command_registry.get_command_definitions(command_name.as_str()) {
            Some(defs) => defs,
            None => {
                let msg = "Unknown command: '".to_owned().concat(command_name.as_str()).concat(
                    "'. Type 'help' for available commands.",
                );
                return Err(CommandError { message: msg });
            },
        };
        let aidx = match find_arity(possible_defs, provided_arg_count) {
            Some(aidx) => aidx,
            None => {
                let mut expected = String::new();
                let mut d: usize = 0;
                while d < possible_defs.len()
                    invariant
                        d <= possible_defs@.len(),
                        expected@ == spec_counts_join(possible_defs@.take(d as int)),
                    decreases possible_defs@.len() - d,
                {
                    if d > 0 {
                        expected.append(" or ");
                    }
                    expected.append(u64_to_string(possible_defs[d].expected_args as u64).as_str());
                    proof {
                        lemma_counts_join_push(
                            possible_defs@.take(d as int),
                            possible_defs@[d as int],
                        );
                        assert(possible_defs@.take(d + 1 as int) =~= possible_defs@.take(
                            d as int,
                        ).push(possible_defs@[d as int]));
                    }
                    d = d + 1;
                }
                proof {
                    assert(possible_defs@.take(possible_defs@.len() as int) =~= possible_defs@);
                }
                let msg = "Error: Wrong number of arguments for command '".to_owned().concat(
                    command_name.as_str(),
                ).concat("'. Got ").concat(u64_to_string(provided_arg_count as u64).as_str())
                    .concat(", expected ").concat(expected.as_str()).concat(".");
                return Err(CommandError { message: msg });
            },
        };
        if str_eq(command_name.as_str(), "help") {
            let parsed_cmd = ParsedCommand {
                name: command_name,
                definition: possible_defs[aidx].clone(),
                args: provided_args,
            };
            Ok(CommandExecution::Help(parsed_cmd))
        } else if str_eq(command_name.as_str(), "build") {
            if provided_args.len() < 2 {
                return Err(CommandError::new("Not enough arguments for build command."));
            }
            let build_cmd = BuildCommand::new(
                command_name.as_str(),
                provided_args[0].as_str(),
                provided_args[1].as_str(),
            );
            proof {
                assert(tokens.deep_view().drop_first()[0] == tokens.deep_view()[1]);
                assert(tokens.deep_view().drop_first()[1] == tokens.deep_view()[2]);
            }
            Ok(CommandExecution::Build(build_cmd))
        } else if str_eq(command_name.as_str(), "endturn") {
            if provided_args.len() > 0 {
                return Err(CommandError::new("End turn command does not accept any arguments."));
            }
            Ok(CommandExecution::EndTurn(EndTurnCommand::new(command_name.as_str())))
        } else if str_eq(command_name.as_str(), "quit") {
            if provided_args.len() > 0 {
                return Err(CommandError::new("Quit command does not accept any arguments."));
            }
            Ok(CommandExecution::Quit(QuitCommand::new(command_name.as_str())))
        } else {
            let parsed_cmd = ParsedCommand {
                name: command_name,
                definition: possible_defs[aidx].clone(),
                args: provided_args,
            };
            Ok(CommandExecution::UnknownInternal(parsed_cmd))
        }
    }
}

} // verus!
