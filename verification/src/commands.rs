//! The command registry: every command is declared once at startup under a
//! unique name together with its cooldown; registering two commands under
//! one name is a fatal startup error.

use vstd::prelude::*;

use crate::errors::RegistrationError;
use crate::strutil::str_eq;

verus! {

/// What one registered command declares: its unique name and the cooldown
/// the cooldown gate enforces between two invocations by one user, in milliseconds.
pub struct CommandSpec {
    pub name: String,
    pub cooldown_ms: u64,
}

/// The static facts a command declares about itself.
pub trait CommandInfo {
    spec fn spec_name(&self) -> Seq<char>;

    spec fn spec_cooldown_secs(&self) -> u64;

    fn name(&self) -> (r: &'static str)
        ensures
            r@ == self.spec_name(),
    ;

    fn cooldown(&self) -> (r: u64)
        ensures
            r == self.spec_cooldown_secs(),
    ;
}

/// The first registered command of the given name, if any.
pub open spec fn spec_find(s: Seq<CommandSpec>, name: Seq<char>) -> Option<CommandSpec>
    decreases s.len(),
{
    if s.len() == 0 {
        None
    } else if s[0].name@ == name {
        Some(s[0])
    } else {
        spec_find(s.drop_first(), name)
    }
}

/// Is some command registered under the given name?
pub open spec fn spec_contains_name(s: Seq<CommandSpec>, name: Seq<char>) -> bool {
    exists|i: int| 0 <= i < s.len() && (#[trigger] s[i]).name@ == name
}

/// No two registered commands share a name.
pub open spec fn names_unique(s: Seq<CommandSpec>) -> bool {
    forall|i: int, j: int|
        0 <= i < j < s.len() ==> (#[trigger] s[i]).name@ != (#[trigger] s[j]).name@
}

pub struct CommandManager {
    commands: Vec<CommandSpec>,
}

impl View for CommandManager {
    type V = Seq<CommandSpec>;

    closed spec fn view(&self) -> Seq<CommandSpec> {
        self.commands@
    }
}

impl CommandManager {
    pub fn new() -> (r: Self)
        ensures
            r@ == Seq::<CommandSpec>::empty(),
    {
        CommandManager { commands: Vec::new() }
    }

    /// Register one command.  A duplicate name is refused and changes
    /// nothing; the caller treats that as a fatal startup error.
    pub fn register_command(&mut self, command: CommandSpec) -> (r: Result<(), RegistrationError>)
        ensures
            match r {
                Ok(()) => !spec_contains_name(old(self)@, command.name@) && final(self)@ == old(
                    self,
                )@.push(command),
                Err(e) => spec_contains_name(old(self)@, command.name@) && e.name@ == command.name@
                    && final(self)@ == old(self)@,
            },
            names_unique(old(self)@) ==> names_unique(final(self)@),
    {
        let mut i: usize = 0;
        while i < self.commands.len()
            invariant
                i <= self.commands@.len(),
                forall|j: int| 0 <= j < i ==> (#[trigger] self.commands@[j]).name@ != command.name@,
        decreases self.commands@.len() - i,
        {
            if str_eq(self.commands[i].name.as_str(), command.name.as_str()) {
                return Err(RegistrationError { name: self.commands[i].name.clone() });
            }
            i += 1;
        }
        self.commands.push(command);
        Ok(())
    }

    /// Look a command up by name: the handler-availability test of the bus.
    pub fn get_handler(&self, name: &str) -> (r: Option<&CommandSpec>)
        ensures
            match r {
                Some(c) => spec_find(self@, name@) == Some(*c),
                None => spec_find(self@, name@) is None,
            },
    {
        let mut i: usize = 0;
        proof {
            assert(self@.skip(0) =~= self@);
        }
        while i < self.commands.len()
            invariant
                i <= self.commands@.len(),
                spec_find(self@, name@) == spec_find(self@.skip(i as int), name@),
            decreases self.commands@.len() - i,
        {
            proof {
                assert(self@.skip(i as int)[0] == self@[i as int]);
                assert(self@.skip(i as int).drop_first() =~= self@.skip(i as int + 1));
            }
            if str_eq(self.commands[i].name.as_str(), name) {
                return Some(&self.commands[i]);
            }
            i += 1;
        }
        proof {
            assert(self@.skip(self@.len() as int).len() == 0);
        }
        None
    }

    /// The names handed to the platform when the command set is announced,
    /// in registration order.
    pub fn get_commands(&self) -> (r: Vec<String>)
        ensures
            r@.len() == self@.len(),
            forall|i: int| 0 <= i < r@.len() ==> r@[i]@ == (#[trigger] self@[i]).name@,
    {
        let mut names: Vec<String> = Vec::new();
        let mut i: usize = 0;
        while i < self.commands.len()
            invariant
                i <= self.commands@.len(),
                names@.len() == i,
                forall|j: int| 0 <= j < i ==> names@[j]@ == (#[trigger] self@[j]).name@,
            decreases self.commands@.len() - i,
        {
            names.push(self.commands[i].name.clone());
            i += 1;
        }
        names
    }
}

/// The ping-style diagnostic command.
pub struct TestCommand;

/// Hands the invoker an encoded key.
pub struct KeyCommand;

/// The moderator workflow command; its ban subcommand starts the
/// interactive ban session.
pub struct ModerateCommand;

/// Per-guild configuration: verify role, logging channel, webhook
/// announcement channels.
pub struct SetupCommand;

/// Opens the membership email verification form.
pub struct VerifyCommand;

/// Reads the membership roster and reports each member.
pub struct ClaimCommand;

/// Opens a free-form demonstration form.
pub struct ModalCommand;

/// Fetches a file for the invoker.
pub struct DownloadCommand;

/// Creates or edits an announcement embed from a description the
/// invoker supplies.
pub struct EmbedCommand;

/// Updates the bot's avatar or banner from an attachment.
pub struct ProfileCommand;

/// Opens a work-in-progress tracker.
pub struct WipCreateCommand;

/// Moves a work-in-progress tracker to a new percentage.
pub struct WipUpdateCommand;

/// Removes a work-in-progress tracker.
pub struct WipRemoveCommand;

impl CommandInfo for TestCommand {
    open spec fn spec_name(&self) -> Seq<char> {
        "test"@
    }

    open spec fn spec_cooldown_secs(&self) -> u64 {
        30
    }

    fn name(&self) -> (r: &'static str) {
        "test"
    }

    fn cooldown(&self) -> (r: u64) {
        30
    }
}

impl CommandInfo for KeyCommand {
    open spec fn spec_name(&self) -> Seq<char> {
        "key"@
    }

    open spec fn spec_cooldown_secs(&self) -> u64 {
        0
    }

    fn name(&self) -> (r: &'static str) {
        "key"
    }

    fn cooldown(&self) -> (r: u64) {
        0
    }
}

impl CommandInfo for ModerateCommand {
    open spec fn spec_name(&self) -> Seq<char> {
        "moderator"@
    }

    open spec fn spec_cooldown_secs(&self) -> u64 {
        5
    }

    fn name(&self) -> (r: &'static str) {
        "moderator"
    }

    fn cooldown(&self) -> (r: u64) {
        5
    }
}

impl CommandInfo for SetupCommand {
    open spec fn spec_name(&self) -> Seq<char> {
        "setup"@
    }

    open spec fn spec_cooldown_secs(&self) -> u64 {
        0
    }

    fn name(&self) -> (r: &'static str) {
        "setup"
    }

    fn cooldown(&self) -> (r: u64) {
        0
    }
}

impl CommandInfo for VerifyCommand {
    open spec fn spec_name(&self) -> Seq<char> {
        "verify"@
    }

    open spec fn spec_cooldown_secs(&self) -> u64 {
        10
    }

    fn name(&self) -> (r: &'static str) {
        "verify"
    }

    fn cooldown(&self) -> (r: u64) {
        10
    }
}

impl CommandInfo for ClaimCommand {
    open spec fn spec_name(&self) -> Seq<char> {
        "claim"@
    }

    open spec fn spec_cooldown_secs(&self) -> u64 {
        0
    }

    fn name(&self) -> (r: &'static str) {
        "claim"
    }

    fn cooldown(&self) -> (r: u64) {
        0
    }
}

impl CommandInfo for ModalCommand {
    open spec fn spec_name(&self) -> Seq<char> {
        "modal"@
    }

    open spec fn spec_cooldown_secs(&self) -> u64 {
        0
    }

    fn name(&self) -> (r: &'static str) {
        "modal"
    }

    fn cooldown(&self) -> (r: u64) {
        0
    }
}

impl CommandInfo for DownloadCommand {
    open spec fn spec_name(&self) -> Seq<char> {
        "dl"@
    }

    open spec fn spec_cooldown_secs(&self) -> u64 {
        0
    }

    fn name(&self) -> (r: &'static str) {
        "dl"
    }

    fn cooldown(&self) -> (r: u64) {
        0
    }
}

impl CommandInfo for EmbedCommand {
    open spec fn spec_name(&self) -> Seq<char> {
        "embed"@
    }

    open spec fn spec_cooldown_secs(&self) -> u64 {
        0
    }

    fn name(&self) -> (r: &'static str) {
        "embed"
    }

    fn cooldown(&self) -> (r: u64) {
        0
    }
}

impl CommandInfo for ProfileCommand {
    open spec fn spec_name(&self) -> Seq<char> {
        "profile"@
    }

    open spec fn spec_cooldown_secs(&self) -> u64 {
        0
    }

    fn name(&self) -> (r: &'static str) {
        "profile"
    }

    fn cooldown(&self) -> (r: u64) {
        0
    }
}

impl CommandInfo for WipCreateCommand {
    open spec fn spec_name(&self) -> Seq<char> {
        "wip_create"@
    }

    open spec fn spec_cooldown_secs(&self) -> u64 {
        0
    }

    fn name(&self) -> (r: &'static str) {
        "wip_create"
    }

    fn cooldown(&self) -> (r: u64) {
        0
    }
}

impl CommandInfo for WipUpdateCommand {
    open spec fn spec_name(&self) -> Seq<char> {
        "wip_update"@
    }

    open spec fn spec_cooldown_secs(&self) -> u64 {
        0
    }

    fn name(&self) -> (r: &'static str) {
        "wip_update"
    }

    fn cooldown(&self) -> (r: u64) {
        0
    }
}

impl CommandInfo for WipRemoveCommand {
    open spec fn spec_name(&self) -> Seq<char> {
        "wip_remove"@
    }

    open spec fn spec_cooldown_secs(&self) -> u64 {
        0
    }

    fn name(&self) -> (r: &'static str) {
        "wip_remove"
    }

    fn cooldown(&self) -> (r: u64) {
        0
    }
}

/// The roster's names are pairwise distinct.
proof fn lemma_roster_names_distinct()
    ensures
        "test"@ != "key"@,
        "test"@ != "moderator"@,
        "test"@ != "setup"@,
        "test"@ != "verify"@,
        "test"@ != "claim"@,
        "test"@ != "modal"@,
        "test"@ != "dl"@,
        "test"@ != "embed"@,
        "test"@ != "profile"@,
        "test"@ != "wip_create"@,
        "test"@ != "wip_update"@,
        "test"@ != "wip_remove"@,
        "key"@ != "moderator"@,
        "key"@ != "setup"@,
        "key"@ != "verify"@,
        "key"@ != "claim"@,
        "key"@ != "modal"@,
        "key"@ != "dl"@,
        "key"@ != "embed"@,
        "key"@ != "profile"@,
        "key"@ != "wip_create"@,
        "key"@ != "wip_update"@,
        "key"@ != "wip_remove"@,
        "moderator"@ != "setup"@,
        "moderator"@ != "verify"@,
        "moderator"@ != "claim"@,
        "moderator"@ != "modal"@,
        "moderator"@ != "dl"@,
        "moderator"@ != "embed"@,
        "moderator"@ != "profile"@,
        "moderator"@ != "wip_create"@,
        "moderator"@ != "wip_update"@,
        "moderator"@ != "wip_remove"@,
        "setup"@ != "verify"@,
        "setup"@ != "claim"@,
        "setup"@ != "modal"@,
        "setup"@ != "dl"@,
        "setup"@ != "embed"@,
        "setup"@ != "profile"@,
        "setup"@ != "wip_create"@,
        "setup"@ != "wip_update"@,
        "setup"@ != "wip_remove"@,
        "verify"@ != "claim"@,
        "verify"@ != "modal"@,
        "verify"@ != "dl"@,
        "verify"@ != "embed"@,
        "verify"@ != "profile"@,
        "verify"@ != "wip_create"@,
        "verify"@ != "wip_update"@,
        "verify"@ != "wip_remove"@,
        "claim"@ != "modal"@,
        "claim"@ != "dl"@,
        "claim"@ != "embed"@,
        "claim"@ != "profile"@,
        "claim"@ != "wip_create"@,
        "claim"@ != "wip_update"@,
        "claim"@ != "wip_remove"@,
        "modal"@ != "dl"@,
        "modal"@ != "embed"@,
        "modal"@ != "profile"@,
        "modal"@ != "wip_create"@,
        "modal"@ != "wip_update"@,
        "modal"@ != "wip_remove"@,
        "dl"@ != "embed"@,
        "dl"@ != "profile"@,
        "dl"@ != "wip_create"@,
        "dl"@ != "wip_update"@,
        "dl"@ != "wip_remove"@,
        "embed"@ != "profile"@,
        "embed"@ != "wip_create"@,
        "embed"@ != "wip_update"@,
        "embed"@ != "wip_remove"@,
        "profile"@ != "wip_create"@,
        "profile"@ != "wip_update"@,
        "profile"@ != "wip_remove"@,
        "wip_create"@ != "wip_update"@,
        "wip_create"@ != "wip_remove"@,
        "wip_update"@ != "wip_remove"@,
{
    reveal_strlit("test");
    reveal_strlit("key");
    reveal_strlit("moderator");
    reveal_strlit("setup");
    reveal_strlit("verify");
    reveal_strlit("claim");
    reveal_strlit("modal");
    reveal_strlit("dl");
    reveal_strlit("embed");
    reveal_strlit("profile");
    reveal_strlit("wip_create");
    reveal_strlit("wip_update");
    reveal_strlit("wip_remove");
    assert("test"@.len() == 4);
    assert("test"@[0] == 't');
    assert("key"@.len() == 3);
    assert("key"@[0] == 'k');
    assert("moderator"@.len() == 9);
    assert("moderator"@[0] == 'm');
    assert("setup"@.len() == 5);
    assert("setup"@[0] == 's');
    assert("verify"@.len() == 6);
    assert("verify"@[0] == 'v');
    assert("claim"@.len() == 5);
    assert("claim"@[0] == 'c');
    assert("modal"@.len() == 5);
    assert("modal"@[0] == 'm');
    assert("dl"@.len() == 2);
    assert("dl"@[0] == 'd');
    assert("embed"@.len() == 5);
    assert("embed"@[0] == 'e');
    assert("profile"@.len() == 7);
    assert("profile"@[0] == 'p');
    assert("wip_create"@.len() == 10);
    assert("wip_create"@[0] == 'w');
    assert("wip_update"@.len() == 10);
    assert("wip_update"@[0] == 'w');
    assert("wip_remove"@.len() == 10);
    assert("wip_remove"@[0] == 'w');
    assert("wip_create"@[4] == 'c');
    assert("wip_update"@[4] == 'u');
    assert("wip_remove"@[4] == 'r');
}

/// The explicit startup routine: register the whole command roster, each
/// command once, its cooldown converted to milliseconds.  The roster's
/// names are pairwise distinct, so registration always succeeds.
pub fn register_all(manager: &mut CommandManager) -> (r: Result<(), RegistrationError>)
    requires
        old(manager)@.len() == 0,
    ensures
        r is Ok,
        final(manager)@.len() == 13,
        names_unique(final(manager)@),
        final(manager)@[0].name@ == "test"@ && final(manager)@[0].cooldown_ms == 30000,
        final(manager)@[1].name@ == "key"@ && final(manager)@[1].cooldown_ms == 0,
        final(manager)@[2].name@ == "moderator"@ && final(manager)@[2].cooldown_ms == 5000,
        final(manager)@[3].name@ == "setup"@ && final(manager)@[3].cooldown_ms == 0,
        final(manager)@[4].name@ == "verify"@ && final(manager)@[4].cooldown_ms == 10000,
        final(manager)@[5].name@ == "claim"@ && final(manager)@[5].cooldown_ms == 0,
        final(manager)@[6].name@ == "modal"@ && final(manager)@[6].cooldown_ms == 0,
        final(manager)@[7].name@ == "dl"@ && final(manager)@[7].cooldown_ms == 0,
        final(manager)@[8].name@ == "embed"@ && final(manager)@[8].cooldown_ms == 0,
        final(manager)@[9].name@ == "profile"@ && final(manager)@[9].cooldown_ms == 0,
        final(manager)@[10].name@ == "wip_create"@ && final(manager)@[10].cooldown_ms == 0,
        final(manager)@[11].name@ == "wip_update"@ && final(manager)@[11].cooldown_ms == 0,
        final(manager)@[12].name@ == "wip_remove"@ && final(manager)@[12].cooldown_ms == 0,
{
    proof {
        lemma_roster_names_distinct();
    }
    register_one(manager, "test", 30000)?;
    register_one(manager, "key", 0)?;
    register_one(manager, "moderator", 5000)?;
    register_one(manager, "setup", 0)?;
    register_one(manager, "verify", 10000)?;
    register_one(manager, "claim", 0)?;
    register_one(manager, "modal", 0)?;
    register_one(manager, "dl", 0)?;
    register_one(manager, "embed", 0)?;
    register_one(manager, "profile", 0)?;
    register_one(manager, "wip_create", 0)?;
    register_one(manager, "wip_update", 0)?;
    register_one(manager, "wip_remove", 0)?;
    Ok(())
}




fn register_one(manager: &mut CommandManager, name: &str, cooldown_ms: u64) -> (r: Result<
    (),
    RegistrationError,
>)
    ensures
        match r {
            Ok(()) => {
                &&& !spec_contains_name(old(manager)@, name@)
                &&& final(manager)@ == old(manager)@.push(final(manager)@.last())
                &&& final(manager)@.last().name@ == name@
                &&& final(manager)@.last().cooldown_ms == cooldown_ms
            },
            Err(e) => {
                &&& spec_contains_name(old(manager)@, name@)
                &&& e.name@ == name@
                &&& final(manager)@ == old(manager)@
            },
        },
        names_unique(old(manager)@) ==> names_unique(final(manager)@),
{
    manager.register_command(CommandSpec { name: name.to_owned(), cooldown_ms })
}

} // verus!
