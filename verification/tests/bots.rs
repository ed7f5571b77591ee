use kromer::bot::info::{InfoCommand, InfoState};
use kromer::bot::invite_link;
use kromer::bot::roles::reaction::{
    CreateReactionRole, CreateReactionRoleState, ReactionRoles, ReactionRolesState, RoleChange, EXPIRED,
    PERMISSIONS_LACKING, PROMPT, REACTION_TIMEOUT,
};
use kromer::bot::xp::{create_top_message, top_emoji, RankCommand, RankState, TopCommand, TopState, Xp, XpState};
use kromer::command::chat::ArgError;
use kromer::command::{Button, CallbackData};
use kromer::event::{ApplicationCommand, CommandDataOption, Event, Interaction, Message, Reaction, ReactionType};
use kromer::model::roles::reaction::ReactionRole;
use kromer::model::xp::Record;
use kromer::model::{Emoji, Error, Query};
use kromer::service::wait::{Predicate, WaitState, Waiter};
use kromer::service::{Failure, Flow, HttpError, Reply, Request, Service, Step};
use kromer::text::ParseIntError;

fn string(name: &str, value: &str) -> CommandDataOption {
    CommandDataOption::String { name: String::from(name), value: String::from(value) }
}

fn slash(name: &str, guild_id: Option<u64>, options: Vec<CommandDataOption>) -> Event {
    Event::InteractionCreate(Interaction::ApplicationCommand(ApplicationCommand {
        id: 900,
        token: String::from("tok"),
        name: String::from(name),
        guild_id,
        member_user: Some(2),
        user: None,
        options,
    }))
}

fn anonymous(name: &str, options: Vec<CommandDataOption>) -> Event {
    Event::InteractionCreate(Interaction::ApplicationCommand(ApplicationCommand {
        id: 900,
        token: String::from("tok"),
        name: String::from(name),
        guild_id: Some(1),
        member_user: None,
        user: None,
        options,
    }))
}

fn thumbs_up(guild_id: Option<u64>, user_id: u64) -> Reaction {
    Reaction {
        channel_id: 30,
        emoji: ReactionType::Unicode { name: String::from("A") },
        guild_id,
        message_id: 20,
        user_id,
    }
}

fn database(code: Option<&str>) -> Error {
    Error { code: code.map(String::from), message: String::from("database said no") }
}

fn http(code: Option<u64>) -> HttpError {
    HttpError { code, message: String::from("platform said no") }
}

fn callback(content: &str) -> Request {
    Request::Callback {
        id: 900,
        token: String::from("tok"),
        data: CallbackData {
            mentions_muted: true,
            components: None,
            content: Some(String::from(content)),
            flags: None,
        },
    }
}

fn followup(content: &str) -> Request {
    Request::Followup { token: String::from("tok"), content: Some(String::from(content)), ephemeral: Some(true) }
}

// experience

#[test]
fn message_of_a_bot_awards_nothing() {
    let mut xp = Xp::new();
    let msg = Message { author_id: 2, author_bot: true, guild_id: Some(1) };
    assert_eq!(xp.handle_message_at(&msg, 0), Step::Done(Ok(())));
    // the cooldown of the author was not touched
    let msg = Message { author_id: 2, author_bot: false, guild_id: Some(1) };
    assert!(matches!(
        xp.handle_message_at(&msg, 1_000_000_000),
        Step::Ask(Request::Query(Query::AddScore { score: 15, .. }), _)
    ));
}

#[test]
fn message_outside_of_a_guild_awards_nothing() {
    let mut xp = Xp::new();
    let msg = Message { author_id: 2, author_bot: false, guild_id: None };
    assert_eq!(xp.handle_message_at(&msg, 0), Step::Done(Ok(())));
}

#[test]
fn message_awards_by_the_cooldown_of_its_author() {
    let mut xp = Xp::new();
    let msg = Message { author_id: 2, author_bot: false, guild_id: Some(1) };
    assert_eq!(
        xp.handle_message_at(&msg, 0),
        Step::Ask(
            Request::Query(Query::AddScore { guild_id: 1, user_id: 2, score: 15 }),
            XpState::Adding { guild_id: 1, user_id: 2, exp: 15 }
        )
    );
    assert_eq!(
        xp.handle_message_at(&msg, 3_500_000_000),
        Step::Ask(
            Request::Query(Query::AddScore { guild_id: 1, user_id: 2, score: 3 }),
            XpState::Adding { guild_id: 1, user_id: 2, exp: 3 }
        )
    );
    // another author has a cooldown of their own
    let other = Message { author_id: 3, author_bot: false, guild_id: Some(1) };
    assert!(matches!(
        xp.handle_message_at(&other, 3_600_000_000),
        Step::Ask(Request::Query(Query::AddScore { user_id: 3, score: 15, .. }), _)
    ));
}

#[test]
fn message_handled_now_awards_the_maximum_first() {
    let mut xp = Xp::new();
    let msg = Message { author_id: 2, author_bot: false, guild_id: Some(1) };
    assert_eq!(
        xp.handle_message(&msg),
        Step::Ask(
            Request::Query(Query::AddScore { guild_id: 1, user_id: 2, score: 15 }),
            XpState::Adding { guild_id: 1, user_id: 2, exp: 15 }
        )
    );
    assert_eq!(
        xp.handle(&Event::MessageCreate(Message { author_id: 2, author_bot: false, guild_id: Some(1) })),
        Step::Ask(
            Request::Query(Query::AddScore { guild_id: 1, user_id: 2, score: 0 }),
            XpState::Adding { guild_id: 1, user_id: 2, exp: 0 }
        )
    );
}

#[test]
fn xp_passes_over_other_events() {
    let mut xp = Xp::new();
    assert_eq!(xp.handle(&Event::Other), Step::Done(Ok(())));
    assert_eq!(xp.handle(&Event::ReactionAdd(thumbs_up(Some(1), 2))), Step::Done(Ok(())));
}

#[test]
fn award_is_inserted_for_a_user_without_a_row() {
    let state = XpState::Adding { guild_id: 1, user_id: 2, exp: 15 };
    assert_eq!(
        state.resume(Reply::Rows(0)),
        Step::Ask(Request::Query(Query::InsertScore { guild_id: 1, user_id: 2, score: 15 }), XpState::Inserting)
    );
    assert_eq!(XpState::Inserting.resume(Reply::Rows(1)), Step::Done(Ok(())));
}

#[test]
fn award_is_added_for_a_user_with_a_row() {
    let state = XpState::Adding { guild_id: 1, user_id: 2, exp: 15 };
    assert_eq!(state.resume(Reply::Rows(1)), Step::Done(Ok(())));
}

#[test]
fn award_fails_with_the_database() {
    let state = XpState::Adding { guild_id: 1, user_id: 2, exp: 15 };
    assert_eq!(state.resume(Reply::Database(database(None))), Step::Done(Err(Failure::Database(database(None)))));
    assert_eq!(
        XpState::Inserting.resume(Reply::Database(database(None))),
        Step::Done(Err(Failure::Database(database(None))))
    );
    let state = XpState::Adding { guild_id: 1, user_id: 2, exp: 15 };
    assert_eq!(state.resume(Reply::Done), Step::Done(Err(Failure::Unexpected)));
}

// /rank

#[test]
fn rank_asks_for_the_experience_of_its_user() {
    let mut rank = RankCommand::new();
    assert_eq!(
        rank.handle(&slash("rank", Some(1), vec![])),
        Step::Ask(
            Request::Query(Query::Score { guild_id: 1, user_id: 2 }),
            RankState::Fetching { id: 900, token: String::from("tok"), guild_id: 1, user_id: 2 }
        )
    );
}

#[test]
fn rank_asks_for_the_user_that_the_option_names() {
    let mut rank = RankCommand::new();
    assert_eq!(
        rank.handle(&slash("rank", Some(1), vec![string("user", "77")])),
        Step::Ask(
            Request::Query(Query::Score { guild_id: 1, user_id: 77 }),
            RankState::Fetching { id: 900, token: String::from("tok"), guild_id: 1, user_id: 77 }
        )
    );
    // the option comes before whoever used the command, who may even be missing
    assert!(matches!(
        rank.handle(&anonymous("rank", vec![string("user", "77")])),
        Step::Ask(Request::Query(Query::Score { guild_id: 1, user_id: 77 }), _)
    ));
}

#[test]
fn rank_failures() {
    let mut rank = RankCommand::new();
    assert_eq!(rank.handle(&slash("rank", None, vec![])), Step::Done(Err(Failure::GuildMissing)));
    assert_eq!(
        rank.handle(&slash("rank", Some(1), vec![string("user", "abc")])),
        Step::Done(Err(Failure::ParseInt(ParseIntError::InvalidDigit)))
    );
    assert_eq!(
        rank.handle(&slash("rank", Some(1), vec![string("user", "")])),
        Step::Done(Err(Failure::ParseInt(ParseIntError::Empty)))
    );
    assert_eq!(
        rank.handle(&slash("rank", Some(1), vec![string("user", "99999999999999999999")])),
        Step::Done(Err(Failure::ParseInt(ParseIntError::PosOverflow)))
    );
    assert_eq!(
        rank.handle(&slash(
            "rank",
            Some(1),
            vec![CommandDataOption::Integer { name: String::from("user"), value: 5 }]
        )),
        Step::Done(Err(Failure::Argument(ArgError::InvalidType("Integer"))))
    );
    assert_eq!(rank.handle(&anonymous("rank", vec![])), Step::Done(Err(Failure::UserMissing)));
}

#[test]
fn rank_passes_over_other_events() {
    let mut rank = RankCommand::new();
    assert_eq!(rank.handle(&slash("top", Some(1), vec![])), Step::Done(Ok(())));
    assert_eq!(rank.handle(&Event::InteractionCreate(Interaction::Other)), Step::Done(Ok(())));
    assert_eq!(rank.handle(&Event::Other), Step::Done(Ok(())));
}

#[test]
fn rank_answers_with_level_and_experience() {
    let state = RankState::Fetching { id: 900, token: String::from("tok"), guild_id: 1, user_id: 2 };
    assert_eq!(
        state.resume(Reply::Record(Some(Record::new(1, 2, 120)))),
        Step::Ask(callback("user <@2> is level 3 with 120KR"), RankState::Closing)
    );
    assert_eq!(RankState::Closing.resume(Reply::Done), Step::Done(Ok(())));
}

#[test]
fn rank_of_a_user_without_a_row() {
    let state = RankState::Fetching { id: 900, token: String::from("tok"), guild_id: 1, user_id: 2 };
    assert_eq!(
        state.resume(Reply::Record(None)),
        Step::Ask(callback("user <@2> is level 1 with 0KR"), RankState::Closing)
    );
}

#[test]
fn rank_of_a_user_in_debt() {
    let state = RankState::Fetching { id: 900, token: String::from("tok"), guild_id: 1, user_id: 2 };
    assert_eq!(
        state.resume(Reply::Record(Some(Record::new(1, 2, -40)))),
        Step::Ask(callback("user <@2> is level 1 with -40KR"), RankState::Closing)
    );
}

#[test]
fn rank_fails_with_its_calls() {
    let state = RankState::Fetching { id: 900, token: String::from("tok"), guild_id: 1, user_id: 2 };
    assert_eq!(state.resume(Reply::Database(database(None))), Step::Done(Err(Failure::Database(database(None)))));
    let state = RankState::Fetching { id: 900, token: String::from("tok"), guild_id: 1, user_id: 2 };
    assert_eq!(state.resume(Reply::Done), Step::Done(Err(Failure::Unexpected)));
    assert_eq!(RankState::Closing.resume(Reply::Http(http(None))), Step::Done(Err(Failure::Http(http(None)))));
}

// /top

#[test]
fn top_asks_for_the_first_ten() {
    let mut top = TopCommand::new();
    assert_eq!(
        top.handle(&slash("top", Some(1), vec![])),
        Step::Ask(
            Request::Query(Query::Top { guild_id: 1, limit: 10, offset: 0 }),
            TopState::Fetching { id: 900, token: String::from("tok") }
        )
    );
    assert_eq!(top.handle(&slash("top", None, vec![])), Step::Done(Err(Failure::GuildMissing)));
    assert_eq!(top.handle(&slash("rank", Some(1), vec![])), Step::Done(Ok(())));
    assert_eq!(top.handle(&Event::Other), Step::Done(Ok(())));
}

#[test]
fn top_answers_with_the_leaders() {
    let state = TopState::Fetching { id: 900, token: String::from("tok") };
    assert_eq!(
        state.resume(Reply::Records(vec![Record::new(1, 5, 300), Record::new(1, 6, 20)])),
        Step::Ask(callback("\u{1F947} 300KR > <@5> \n\u{1F948} 20KR > <@6> "), TopState::Closing)
    );
    assert_eq!(TopState::Closing.resume(Reply::Done), Step::Done(Ok(())));
    let state = TopState::Fetching { id: 900, token: String::from("tok") };
    assert_eq!(state.resume(Reply::Database(database(None))), Step::Done(Err(Failure::Database(database(None)))));
    let state = TopState::Fetching { id: 900, token: String::from("tok") };
    assert_eq!(state.resume(Reply::Record(None)), Step::Done(Err(Failure::Unexpected)));
}

#[test]
fn top_message_without_records() {
    assert_eq!(create_top_message(&[]), "NO MEMBERS HAVE SPOKEN SINCE I JOINED!!!");
}

#[test]
fn top_message_of_one_record() {
    assert_eq!(create_top_message(&[Record::new(1, 5, 300)]), "\u{1F947} 300KR > <@5> ");
}

#[test]
fn top_message_lists_one_record_to_a_line() {
    let top = [
        Record::new(1, 5, 300),
        Record::new(1, 6, 20),
        Record::new(1, 7, 3),
        Record::new(1, 8, 0),
        Record::new(1, -1, -9),
    ];
    assert_eq!(
        create_top_message(&top),
        "\u{1F947} 300KR > <@5> \n\u{1F948} 20KR > <@6> \n\u{1F949} 3KR > <@7> \n\u{1F4B4} 0KR > <@8> \n\u{1F4B4} -9KR > <@18446744073709551615> "
    );
}

#[test]
fn top_emoji_by_place() {
    assert_eq!(top_emoji(0), '\u{1F947}');
    assert_eq!(top_emoji(1), '\u{1F948}');
    assert_eq!(top_emoji(2), '\u{1F949}');
    assert_eq!(top_emoji(3), '\u{1F4B4}');
    assert_eq!(top_emoji(usize::MAX), '\u{1F4B4}');
}

// /info

#[test]
fn invite_link_of_an_application() {
    assert_eq!(
        invite_link(155785208556290048),
        "https://discord.com/api/oauth2/authorize?client_id=155785208556290048&permissions=0&scope=bot%20applications.commands"
    );
}

#[test]
fn info_answers_with_version_and_links() {
    let mut info = InfoCommand::new(Some(42), String::from("0.1.0"), String::from("abc123"));
    assert_eq!(
        info.handle(&slash("info", None, vec![])),
        Step::Ask(
            Request::Callback {
                id: 900,
                token: String::from("tok"),
                data: CallbackData {
                    mentions_muted: false,
                    components: Some(vec![
                        Button {
                            label: String::from("Invite"),
                            url: String::from(
                                "https://discord.com/api/oauth2/authorize?client_id=42&permissions=0&scope=bot%20applications.commands"
                            ),
                        },
                        Button {
                            label: String::from("Github"),
                            url: String::from("https://github.com/frostu8/kromer/tree/abc123"),
                        },
                    ]),
                    content: Some(String::from("running kromer 0.1.0 (abc123)")),
                    flags: Some(64),
                },
            },
            InfoState::Closing
        )
    );
}

#[test]
fn info_without_an_application_id_has_no_invite() {
    let mut info = InfoCommand::new(None, String::from("0.1.0"), String::from("abc123"));
    match info.handle(&slash("info", Some(1), vec![])) {
        Step::Ask(Request::Callback { data, .. }, InfoState::Closing) => {
            assert_eq!(
                data.components,
                Some(vec![Button {
                    label: String::from("Github"),
                    url: String::from("https://github.com/frostu8/kromer/tree/abc123"),
                }])
            );
        }
        other => panic!("{:?}", other),
    }
}

#[test]
fn info_passes_over_other_events_and_ends_with_its_answer() {
    let mut info = InfoCommand::new(None, String::from("0.1.0"), String::from("abc123"));
    assert_eq!(info.handle(&slash("rank", Some(1), vec![])), Step::Done(Ok(())));
    assert_eq!(info.handle(&Event::Other), Step::Done(Ok(())));
    assert_eq!(InfoState::Closing.resume(Reply::Done), Step::Done(Ok(())));
    assert_eq!(InfoState::Closing.resume(Reply::Http(http(None))), Step::Done(Err(Failure::Http(http(None)))));
}

// reaction roles

#[test]
fn reaction_looks_its_reaction_role_up() {
    let mut roles = ReactionRoles::new();
    assert_eq!(
        roles.handle(&Event::ReactionAdd(thumbs_up(Some(1), 2))),
        Step::Ask(
            Request::Query(Query::ReactionRole { message_id: 20, emoji: 65 }),
            ReactionRolesState::Lookup { guild_id: 1, user_id: 2, change: RoleChange::Add }
        )
    );
    assert_eq!(
        roles.handle(&Event::ReactionRemove(thumbs_up(Some(1), 2))),
        Step::Ask(
            Request::Query(Query::ReactionRole { message_id: 20, emoji: 65 }),
            ReactionRolesState::Lookup { guild_id: 1, user_id: 2, change: RoleChange::Remove }
        )
    );
}

#[test]
fn reaction_outside_of_a_guild_is_passed_over() {
    let mut roles = ReactionRoles::new();
    assert_eq!(roles.handle(&Event::ReactionAdd(thumbs_up(None, 2))), Step::Done(Ok(())));
    assert_eq!(roles.handle(&Event::ReactionRemove(thumbs_up(None, 2))), Step::Done(Ok(())));
    assert_eq!(roles.handle(&Event::Other), Step::Done(Ok(())));
    assert_eq!(roles.handle(&slash("rank", Some(1), vec![])), Step::Done(Ok(())));
}

#[test]
fn reaction_without_an_emoji_fails() {
    let mut roles = ReactionRoles::new();
    let mut reaction = thumbs_up(Some(1), 2);
    reaction.emoji = ReactionType::Unicode { name: String::new() };
    assert_eq!(roles.handle(&Event::ReactionAdd(reaction)), Step::Done(Err(Failure::EmojiMissing)));
}

#[test]
fn reaction_of_a_reaction_role_changes_the_roles() {
    let state = ReactionRolesState::Lookup { guild_id: 1, user_id: 2, change: RoleChange::Add };
    assert_eq!(
        state.resume(Reply::ReactionRole(Some(ReactionRole::new(1, 20, 30, 44, Emoji::Unicode('A'))))),
        Step::Ask(
            Request::AddRole { guild_id: 1, user_id: 2, role_id: 44, reason: "reaction role add" },
            ReactionRolesState::Change
        )
    );
    let state = ReactionRolesState::Lookup { guild_id: 1, user_id: 2, change: RoleChange::Remove };
    assert_eq!(
        state.resume(Reply::ReactionRole(Some(ReactionRole::new(1, 20, 30, 44, Emoji::Unicode('A'))))),
        Step::Ask(
            Request::RemoveRole { guild_id: 1, user_id: 2, role_id: 44, reason: "reaction role remove" },
            ReactionRolesState::Change
        )
    );
}

#[test]
fn normal_reaction_changes_nothing() {
    let state = ReactionRolesState::Lookup { guild_id: 1, user_id: 2, change: RoleChange::Add };
    assert_eq!(state.resume(Reply::ReactionRole(None)), Step::Done(Ok(())));
    let state = ReactionRolesState::Lookup { guild_id: 1, user_id: 2, change: RoleChange::Add };
    assert_eq!(state.resume(Reply::Database(database(None))), Step::Done(Err(Failure::Database(database(None)))));
    let state = ReactionRolesState::Lookup { guild_id: 1, user_id: 2, change: RoleChange::Add };
    assert_eq!(state.resume(Reply::Done), Step::Done(Err(Failure::Unexpected)));
}

#[test]
fn lacking_permissions_are_passed_over_in_silence() {
    assert_eq!(PERMISSIONS_LACKING, 50013);
    assert_eq!(ReactionRolesState::Change.resume(Reply::Done), Step::Done(Ok(())));
    assert_eq!(ReactionRolesState::Change.resume(Reply::Http(http(Some(50013)))), Step::Done(Ok(())));
    assert_eq!(
        ReactionRolesState::Change.resume(Reply::Http(http(Some(50001)))),
        Step::Done(Err(Failure::Http(http(Some(50001)))))
    );
    assert_eq!(
        ReactionRolesState::Change.resume(Reply::Http(http(None))),
        Step::Done(Err(Failure::Http(http(None))))
    );
    assert_eq!(ReactionRolesState::Change.resume(Reply::Rows(1)), Step::Done(Err(Failure::Unexpected)));
}

// /reactionroles add

fn add(options: Vec<CommandDataOption>) -> Vec<CommandDataOption> {
    vec![CommandDataOption::SubCommand { name: String::from("add"), options }]
}

#[test]
fn reactionroles_add_asks_its_user_to_react() {
    let mut create = CreateReactionRole::new();
    assert_eq!(
        create.handle(&slash("reactionroles", Some(1), add(vec![string("role", "44")]))),
        Step::Ask(
            Request::Callback {
                id: 900,
                token: String::from("tok"),
                data: CallbackData {
                    mentions_muted: true,
                    components: None,
                    content: Some(String::from(
                        "react with the emoji of your choice to the message of your choice to set up the reaction role!. \u{26a0}\u{fe0f} this will expire in a minute!"
                    )),
                    flags: Some(64),
                },
            },
            CreateReactionRoleState::Prompted { id: 900, token: String::from("tok"), guild_id: 1, user_id: 2, role_id: 44 }
        )
    );
    assert_eq!(
        PROMPT,
        "react with the emoji of your choice to the message of your choice to set up the reaction role!. \u{26a0}\u{fe0f} this will expire in a minute!"
    );
}

#[test]
fn reactionroles_failures() {
    let mut create = CreateReactionRole::new();
    assert_eq!(
        create.handle(&slash("reactionroles", None, add(vec![string("role", "44")]))),
        Step::Done(Err(Failure::GuildMissing))
    );
    assert_eq!(
        create.handle(&anonymous("reactionroles", add(vec![string("role", "44")]))),
        Step::Done(Err(Failure::UserMissing))
    );
    assert_eq!(create.handle(&slash("reactionroles", Some(1), add(vec![]))), Step::Done(Err(Failure::RoleMissing)));
    assert_eq!(
        create.handle(&slash("reactionroles", Some(1), add(vec![string("role", "4x")]))),
        Step::Done(Err(Failure::ParseInt(ParseIntError::InvalidDigit)))
    );
    assert_eq!(
        create.handle(&slash(
            "reactionroles",
            Some(1),
            add(vec![CommandDataOption::Boolean { name: String::from("role"), value: true }])
        )),
        Step::Done(Err(Failure::Argument(ArgError::InvalidType("Boolean"))))
    );
    assert_eq!(
        create.handle(&slash("reactionroles", Some(1), vec![string("add", "44")])),
        Step::Done(Err(Failure::Argument(ArgError::InvalidType("String"))))
    );
}

#[test]
fn reactionroles_passes_over_other_commands() {
    let mut create = CreateReactionRole::new();
    assert_eq!(create.handle(&slash("reactionroles", Some(1), vec![])), Step::Done(Ok(())));
    assert_eq!(
        create.handle(&slash(
            "reactionroles",
            Some(1),
            vec![CommandDataOption::SubCommand { name: String::from("remove"), options: vec![] }]
        )),
        Step::Done(Ok(()))
    );
    // the role of the command itself is not that of the subcommand
    assert_eq!(create.handle(&slash("reactionroles", Some(1), vec![string("role", "44")])), Step::Done(Ok(())));
    assert_eq!(create.handle(&slash("rank", Some(1), add(vec![string("role", "44")]))), Step::Done(Ok(())));
    assert_eq!(create.handle(&Event::Other), Step::Done(Ok(())));
}

fn prompted() -> CreateReactionRoleState {
    CreateReactionRoleState::Prompted { id: 900, token: String::from("tok"), guild_id: 1, user_id: 2, role_id: 44 }
}

fn waiting() -> CreateReactionRoleState {
    CreateReactionRoleState::Waiting { id: 900, token: String::from("tok"), guild_id: 1, role_id: 44 }
}

fn creating() -> CreateReactionRoleState {
    CreateReactionRoleState::Creating {
        id: 900,
        token: String::from("tok"),
        role_id: 44,
        message_id: 20,
        emoji: Emoji::Unicode('A'),
    }
}

#[test]
fn prompt_is_followed_by_a_wait_of_a_minute() {
    assert_eq!(REACTION_TIMEOUT, 60);
    assert_eq!(
        prompted().resume(Reply::Done),
        Step::Ask(
            Request::Wait(Waiter {
                scope: 1,
                predicate: Predicate::ReactionBy { user_id: 2 },
                timeout: 60,
                state: WaitState::Created,
            }),
            waiting()
        )
    );
    assert_eq!(prompted().resume(Reply::Http(http(None))), Step::Done(Err(Failure::Http(http(None)))));
    assert_eq!(prompted().resume(Reply::Rows(1)), Step::Done(Err(Failure::Unexpected)));
}

#[test]
fn reaction_in_time_creates_the_reaction_role() {
    let waiter = Waiter::new(1, Predicate::ReactionBy { user_id: 2 }, 60);
    let waiter = waiter.offer(Event::ReactionAdd(thumbs_up(Some(1), 2)));
    assert_eq!(
        waiting().resume(Reply::Waited(waiter)),
        Step::Ask(
            Request::Query(Query::CreateReactionRole {
                guild_id: 1,
                message_id: 20,
                channel_id: 30,
                role_id: 44,
                emoji: 65
            }),
            creating()
        )
    );
}

#[test]
fn no_reaction_in_time_sends_the_expiration_notice() {
    let waiter = Waiter::new(1, Predicate::ReactionBy { user_id: 2 }, 60);
    // reactions of others do not count, and the timer runs out
    let waiter = waiter.offer(Event::ReactionAdd(thumbs_up(Some(1), 3))).expire();
    assert_eq!(
        waiting().resume(Reply::Waited(waiter)),
        Step::Ask(
            followup("request has expired! try `/reactionroles add` again to continue"),
            CreateReactionRoleState::Closing
        )
    );
    assert_eq!(EXPIRED, "request has expired! try `/reactionroles add` again to continue");
    assert_eq!(CreateReactionRoleState::Closing.resume(Reply::Done), Step::Done(Ok(())));
}

#[test]
fn late_reaction_does_not_undo_the_timeout() {
    let waiter = Waiter::new(1, Predicate::ReactionBy { user_id: 2 }, 60);
    let waiter = waiter.expire().offer(Event::ReactionAdd(thumbs_up(Some(1), 2)));
    assert!(matches!(
        waiting().resume(Reply::Waited(waiter)),
        Step::Ask(Request::Followup { .. }, CreateReactionRoleState::Closing)
    ));
}

#[test]
fn wait_that_did_not_end_as_it_should() {
    let waiter = Waiter::new(1, Predicate::ReactionBy { user_id: 2 }, 60);
    assert_eq!(waiting().resume(Reply::Waited(waiter.cancel())), Step::Done(Err(Failure::Canceled)));
    let waiter = Waiter::new(1, Predicate::ReactionBy { user_id: 2 }, 60);
    assert_eq!(waiting().resume(Reply::Waited(waiter)), Step::Done(Err(Failure::Unexpected)));
    let waiter = Waiter { scope: 1, predicate: Predicate::ReactionBy { user_id: 2 }, timeout: 60, state: WaitState::Fulfilled(Event::Other) };
    assert_eq!(waiting().resume(Reply::Waited(waiter)), Step::Done(Err(Failure::Unexpected)));
    let mut nameless = thumbs_up(Some(1), 2);
    nameless.emoji = ReactionType::Unicode { name: String::new() };
    let waiter = Waiter::new(1, Predicate::ReactionBy { user_id: 2 }, 60).offer(Event::ReactionAdd(nameless));
    assert_eq!(waiting().resume(Reply::Waited(waiter)), Step::Done(Err(Failure::EmojiMissing)));
    assert_eq!(waiting().resume(Reply::Done), Step::Done(Err(Failure::Unexpected)));
}

#[test]
fn created_reaction_role_is_announced() {
    assert_eq!(
        creating().resume(Reply::Rows(1)),
        Step::Ask(
            followup("reaction role set up!\ni will now give the <@&44> role to anyone who reacts with A to that message!"),
            CreateReactionRoleState::Closing
        )
    );
    assert_eq!(
        creating().resume(Reply::Done),
        Step::Ask(
            followup("reaction role set up!\ni will now give the <@&44> role to anyone who reacts with A to that message!"),
            CreateReactionRoleState::Closing
        )
    );
}

#[test]
fn role_mentions_hold_the_whole_id() {
    let state = CreateReactionRoleState::Creating {
        id: 900,
        token: String::from("tok"),
        role_id: u64::MAX,
        message_id: 20,
        emoji: Emoji::Custom(77),
    };
    assert_eq!(
        state.resume(Reply::Rows(1)),
        Step::Ask(
            followup("reaction role set up!\ni will now give the <@&18446744073709551615> role to anyone who reacts with <:emoji:77> to that message!"),
            CreateReactionRoleState::Closing
        )
    );
}

#[test]
fn existing_reaction_role_is_looked_up_and_named() {
    assert_eq!(
        creating().resume(Reply::Database(database(Some("23505")))),
        Step::Ask(
            Request::Query(Query::ReactionRole { message_id: 20, emoji: 65 }),
            CreateReactionRoleState::Existing { id: 900, token: String::from("tok"), emoji: Emoji::Unicode('A') }
        )
    );
    let existing = CreateReactionRoleState::Existing { id: 900, token: String::from("tok"), emoji: Emoji::Unicode('A') };
    assert_eq!(
        existing.resume(Reply::ReactionRole(Some(ReactionRole::new(1, 20, 30, 55, Emoji::Unicode('A'))))),
        Step::Ask(
            followup("a reaction role that gives <@&55> has already been set up for the emoji A! try removing it first!"),
            CreateReactionRoleState::Closing
        )
    );
}

#[test]
fn creation_fails_with_the_database() {
    assert_eq!(
        creating().resume(Reply::Database(database(Some("23503")))),
        Step::Done(Err(Failure::Database(database(Some("23503")))))
    );
    assert_eq!(creating().resume(Reply::Database(database(None))), Step::Done(Err(Failure::Database(database(None)))));
    assert_eq!(creating().resume(Reply::Record(None)), Step::Done(Err(Failure::Unexpected)));
    let existing = CreateReactionRoleState::Existing { id: 900, token: String::from("tok"), emoji: Emoji::Unicode('A') };
    assert_eq!(existing.resume(Reply::ReactionRole(None)), Step::Done(Err(Failure::ReactionRoleLost)));
    let existing = CreateReactionRoleState::Existing { id: 900, token: String::from("tok"), emoji: Emoji::Unicode('A') };
    assert_eq!(existing.resume(Reply::Database(database(None))), Step::Done(Err(Failure::Database(database(None)))));
    let existing = CreateReactionRoleState::Existing { id: 900, token: String::from("tok"), emoji: Emoji::Unicode('A') };
    assert_eq!(existing.resume(Reply::Done), Step::Done(Err(Failure::Unexpected)));
    assert_eq!(
        CreateReactionRoleState::Closing.resume(Reply::Http(http(Some(1)))),
        Step::Done(Err(Failure::Http(http(Some(1)))))
    );
}

#[test]
fn role_change_requests() {
    assert_eq!(
        RoleChange::Add.request(1, 2, 3),
        Request::AddRole { guild_id: 1, user_id: 2, role_id: 3, reason: "reaction role add" }
    );
    assert_eq!(
        RoleChange::Remove.request(1, 2, 3),
        Request::RemoveRole { guild_id: 1, user_id: 2, role_id: 3, reason: "reaction role remove" }
    );
}

// one user in one guild, from the first message to the reaction role

#[test]
fn user_earns_experience_and_sets_up_a_reaction_role() {
    const SECOND: u128 = 1_000_000_000;
    let guild = 1;
    let user = 2;

    // three messages: at once, after five seconds, after twenty-five
    let mut xp = Xp::new();
    let msg = Message { author_id: user, author_bot: false, guild_id: Some(guild) };
    let awards: Vec<i32> = [0, 5 * SECOND, 25 * SECOND]
        .iter()
        .map(|now| match xp.handle_message_at(&msg, *now) {
            Step::Ask(Request::Query(Query::AddScore { score, .. }), _) => score,
            other => panic!("{:?}", other),
        })
        .collect();
    assert_eq!(awards, vec![15, 5, 15]);

    // the user asks for a reaction role and is given a minute to react
    let mut create = CreateReactionRole::new();
    let step = create.handle(&slash("reactionroles", Some(guild), add(vec![string("role", "44")])));
    let state = match step {
        Step::Ask(Request::Callback { .. }, state) => state,
        other => panic!("{:?}", other),
    };
    let (waiter, state) = match state.resume(Reply::Done) {
        Step::Ask(Request::Wait(waiter), state) => (waiter, state),
        other => panic!("{:?}", other),
    };
    assert_eq!((waiter.scope, waiter.timeout), (guild, 60));
    assert!(waiter.is_pending());

    // the reaction comes after ten seconds, well before the timer
    let reaction = Event::ReactionAdd(thumbs_up(Some(guild), user));
    assert!(waiter.test(&reaction));
    let waiter = waiter.offer(Event::ReactionAdd(thumbs_up(Some(guild), user))).expire();
    assert_eq!(waiter.state, WaitState::Fulfilled(reaction));
    assert!(matches!(
        state.resume(Reply::Waited(waiter)),
        Step::Ask(Request::Query(Query::CreateReactionRole { role_id: 44, .. }), _)
    ));

    // without a reaction the wait times out, and the user is told so
    let waiter = Waiter::new(guild, Predicate::ReactionBy { user_id: user }, 60).expire();
    assert_eq!(waiter.state, WaitState::TimedOut);
    assert_eq!(
        waiting().resume(Reply::Waited(waiter)),
        Step::Ask(
            followup("request has expired! try `/reactionroles add` again to continue"),
            CreateReactionRoleState::Closing
        )
    );
}
