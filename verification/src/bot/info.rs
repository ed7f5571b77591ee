//! Info commands.

use vstd::prelude::*;
use super::{invite_link, spec_invite_link};
use crate::command::chat::Arguments;
use crate::command::{Button, ButtonView, CallbackData, CallbackDataView, EPHEMERAL};
use crate::event::{ApplicationCommand, Event, Interaction};
use crate::service::{finish, spec_finish, Flow, Reply, Request, RequestView, Service, Step, StepView};
use crate::text::same_text;

verus! {

/// The `/info` command.
///
/// Answers with the version of the bot that is running, a link to its
/// sources and, where the bot knows its own application id, a link that
/// invites it to a guild.
pub struct InfoCommand {
    application_id: Option<u64>,
    version: String,
    git_hash: String,
}

/// Where the work on one `/info` stands.
#[derive(Debug, PartialEq)]
pub enum InfoState {
    /// The answer was sent.
    Closing,
}

/// Where the sources of a commit are found.
pub open spec fn spec_repository(git_hash: Seq<char>) -> Seq<char> {
    "https://github.com/frostu8/kromer/tree/"@ + git_hash
}

impl InfoCommand {
    /// The application id of the bot, if it is known.
    pub closed spec fn application_id(&self) -> Option<u64> {
        self.application_id
    }

    /// The package version of the bot.
    pub closed spec fn version(&self) -> Seq<char> {
        self.version@
    }

    /// The commit that the bot was built from.
    pub closed spec fn git_hash(&self) -> Seq<char> {
        self.git_hash@
    }

    /// The buttons under the answer: the invite, for a bot that knows its
    /// application id, and then the sources.
    pub open spec fn spec_buttons(&self) -> Seq<ButtonView> {
        let github = ButtonView { label: "Github"@, url: spec_repository(self.git_hash()) };
        match self.application_id() {
            Some(id) => seq![ButtonView { label: "Invite"@, url: spec_invite_link(id) }, github],
            None => seq![github],
        }
    }

    /// What `/info` answers: an ephemeral message with the version and the
    /// commit, and the buttons under it.
    pub open spec fn spec_info_response(&self) -> CallbackDataView {
        CallbackDataView {
            mentions_muted: false,
            components: Some(self.spec_buttons()),
            content: Some("running kromer "@ + self.version() + " ("@ + self.git_hash() + ")"@),
            flags: Some(EPHEMERAL),
        }
    }

    /// What `/info` starts: its answer.
    pub open spec fn spec_command(&self, cmd: &ApplicationCommand) -> StepView<InfoState> {
        StepView::Ask(
            RequestView::Callback { id: cmd.id, token: cmd.token@, data: self.spec_info_response() },
            InfoState::Closing,
        )
    }

    /// What an event starts: the command `info` is answered, and nothing else
    /// starts anything.
    pub open spec fn spec_handle(&self, ev: &Event) -> StepView<InfoState> {
        match ev {
            Event::InteractionCreate(Interaction::ApplicationCommand(cmd)) => if cmd.name@ == "info"@ {
                self.spec_command(cmd)
            } else {
                StepView::Done(Ok(()))
            },
            _ => StepView::Done(Ok(())),
        }
    }

    /// The command of a bot with the given application id, package version
    /// and commit.
    pub fn new(application_id: Option<u64>, version: String, git_hash: String) -> (service: InfoCommand)
        ensures
            service.application_id() == application_id,
            service.version() == version@,
            service.git_hash() == git_hash@,
    {
        InfoCommand { application_id, version, git_hash }
    }

    fn command(&self, command: Arguments<'_>) -> (step: Step<InfoState>)
        ensures
            step@ == self.spec_command(&command.command()),
    {
        // we don't really care about anything about the command besides the
        // id and token so we can respond.
        Step::Ask(
            Request::Callback {
                id: command.id(),
                token: String::from_str(command.token()),
                data: self.make_info_response(),
            },
            InfoState::Closing,
        )
    }

    fn make_info_response(&self) -> (data: CallbackData)
        ensures
            data@ == self.spec_info_response(),
    {
        let mut content = String::from_str("running kromer ");
        content.append(self.version.as_str());
        content.append(" (");
        content.append(self.git_hash.as_str());
        content.append(")");

        let mut buttons: Vec<Button> = Vec::new();

        if let Some(id) = self.application_id {
            buttons.push(Button { label: String::from_str("Invite"), url: invite_link(id) });
        }
        let mut repository = String::from_str("https://github.com/frostu8/kromer/tree/");
        repository.append(self.git_hash.as_str());
        buttons.push(Button { label: String::from_str("Github"), url: repository });

        assert(buttons@.map_values(|button: Button| button@) =~= self.spec_buttons());

        CallbackData { mentions_muted: false, components: Some(buttons), content: Some(content), flags: Some(EPHEMERAL) }
    }
}

impl Service for InfoCommand {
    type Work = Step<InfoState>;

    open spec fn handlers(&self) -> nat {
        1
    }

    open spec fn handles(&self, ev: &Event, after: &Self, work: &Self::Work) -> bool {
        work@ == self.spec_handle(ev) && *after == *self
    }

    fn handle(&mut self, ev: &Event) -> (work: Self::Work) {
        match ev {
            Event::InteractionCreate(Interaction::ApplicationCommand(cmd)) => {
                let args = Arguments::new(cmd);
                if same_text(args.name(), "info") {
                    self.command(args)
                } else {
                    Step::Done(Ok(()))
                }
            },
            _ => Step::Done(Ok(())),
        }
    }
}

impl Flow for InfoState {
    open spec fn next(self, reply: Reply) -> StepView<Self> {
        StepView::Done(spec_finish(reply))
    }

    open spec fn requests_left(&self) -> nat {
        0
    }

    fn resume(self, reply: Reply) -> (step: Step<Self>) {
        Step::Done(finish(reply))
    }
}

} // verus!
