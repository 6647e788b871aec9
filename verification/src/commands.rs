//! The bot's commands: help, per-game info, and the top-ten ranking.
//!
//! Each command is a function from plain inputs to a [`Reply`]. The
//! ranking command is split around the network: [`top10_query`] says what
//! to ask the collection service (board games only, expansions excluded),
//! and [`top10_reply`] turns the service's outcome — the records, or one
//! of its errors — into the reply the user sees. Every service error maps
//! to a fixed message; no internal detail reaches the user.
//!
//! [`top10_query`]: crate::query::top10_query

use vstd::prelude::*;

use crate::collection::BriefItem;
use crate::collection::get_games_by_user_rating_desc;
use crate::collection::sorted_by_rating_desc;
use crate::numfmt::decimal_digits;
use crate::numfmt::u64_to_decimal;
use crate::render::Reply;
use crate::render::create_base_embed;
use crate::render::format_ranking_body;
use crate::render::is_base_embed;
use crate::render::lines_body;
use crate::render::top_ten;

verus! {

/// One registered command: its name and the description shown by help.
pub struct CommandInfo {
    pub name: String,
    pub description: String,
}

/// The commands this bot registers, in registration order: help,
/// game_info, top10, each with the description shown by help.
pub fn registered_commands() -> (cmds: Vec<CommandInfo>)
    ensures
        cmds@.len() == 3,
        cmds@[0].name@ == "help"@,
        cmds@[0].description@ == "Show this help menu"@,
        cmds@[1].name@ == "game_info"@,
        cmds@[1].description@ == "Get info for a particular game, by its ID."@,
        cmds@[2].name@ == "top10"@,
        cmds@[2].description@ == "Get the 10 games that a given user has rated highest."@,
{
    let mut cmds: Vec<CommandInfo> = Vec::new();
    cmds.push(
        CommandInfo {
            name: String::from_str("help"),
            description: String::from_str("Show this help menu"),
        },
    );
    cmds.push(
        CommandInfo {
            name: String::from_str("game_info"),
            description: String::from_str("Get info for a particular game, by its ID."),
        },
    );
    cmds.push(
        CommandInfo {
            name: String::from_str("top10"),
            description: String::from_str("Get the 10 games that a given user has rated highest."),
        },
    );
    cmds
}

/// One line of the help listing: the command's name and description.
pub open spec fn command_line(c: CommandInfo) -> Seq<char> {
    c.name@ + ": "@ + c.description@ + "\n"@
}

/// The lines of the help listing, one per command, in order.
pub open spec fn command_lines(cmds: Seq<CommandInfo>) -> Seq<char>
    decreases cmds.len(),
{
    if cmds.len() == 0 {
        Seq::empty()
    } else {
        command_lines(cmds.drop_last()) + command_line(cmds.last())
    }
}

/// The full help listing: every command's line, then the closing text.
pub open spec fn help_listing(cmds: Seq<CommandInfo>) -> Seq<char> {
    command_lines(cmds) + "Test help text idk..."@
}

/// The help detail of one command: its name and description.
pub open spec fn help_detail(c: CommandInfo) -> Seq<char> {
    c.name@ + ": "@ + c.description@
}

/// The reply when help is asked about a name no command carries.
pub open spec fn command_not_found(name: Seq<char>) -> Seq<char> {
    "Command "@ + name + " not found"@
}

/// Every command's line stands whole somewhere among the listing's lines.
proof fn lemma_lines_contain_each_command(cmds: Seq<CommandInfo>, i: int)
    requires
        0 <= i < cmds.len(),
    ensures
        exists|k: int|
            0 <= k && k + command_line(cmds[i]).len() <= command_lines(cmds).len()
                && #[trigger] command_lines(cmds).subrange(
                k,
                k + command_line(cmds[i]).len() as int,
            ) == command_line(cmds[i]),
    decreases cmds.len(),
{
    let line = command_line(cmds[i]);
    let l = line.len() as int;
    if i == cmds.len() - 1 {
        let k = command_lines(cmds.drop_last()).len() as int;
        assert(command_lines(cmds).subrange(k, k + l) =~= line);
    } else {
        lemma_lines_contain_each_command(cmds.drop_last(), i);
        let k = choose|k: int|
            0 <= k && k + l <= command_lines(cmds.drop_last()).len() && #[trigger] command_lines(
                cmds.drop_last(),
            ).subrange(k, k + l) == line;
        assert(command_lines(cmds).subrange(k, k + l) =~= command_lines(cmds.drop_last()).subrange(
            k,
            k + l,
        ));
    }
}

/// Help with no argument lists every registered command: each command's
/// line — its name and description — stands whole in the help listing.
pub proof fn lemma_help_listing_contains_each_command(cmds: Seq<CommandInfo>, i: int)
    requires
        0 <= i < cmds.len(),
    ensures
        exists|k: int|
            0 <= k && k + command_line(cmds[i]).len() <= help_listing(cmds).len()
                && #[trigger] help_listing(cmds).subrange(
                k,
                k + command_line(cmds[i]).len() as int,
            ) == command_line(cmds[i]),
{
    let line = command_line(cmds[i]);
    let l = line.len() as int;
    lemma_lines_contain_each_command(cmds, i);
    let k = choose|k: int|
        0 <= k && k + l <= command_lines(cmds).len() && #[trigger] command_lines(cmds).subrange(
            k,
            k + l,
        ) == line;
    assert(help_listing(cmds).subrange(k, k + l) =~= command_lines(cmds).subrange(k, k + l));
}

/// The first registered command of the given name, if any.
pub open spec fn find_command(cmds: Seq<CommandInfo>, name: Seq<char>) -> Option<CommandInfo>
    decreases cmds.len(),
{
    if cmds.len() == 0 {
        None
    } else if cmds[0].name@ == name {
        Some(cmds[0])
    } else {
        find_command(cmds.drop_first(), name)
    }
}

/// Skipping commands whose names all differ from `name` does not change
/// which command is found.
proof fn lemma_find_skip(cmds: Seq<CommandInfo>, name: Seq<char>, i: int)
    requires
        0 <= i <= cmds.len(),
        forall|j: int| 0 <= j < i ==> cmds[j].name@ != name,
    ensures
        find_command(cmds, name) == find_command(cmds.skip(i), name),
    decreases i,
{
    if i > 0 {
        assert(cmds.skip(0) =~= cmds);
        assert forall|j: int| 0 <= j < i - 1 implies cmds.drop_first()[j].name@ != name by {
            assert(cmds.drop_first()[j] == cmds[j + 1]);
        }
        lemma_find_skip(cmds.drop_first(), name, i - 1);
        assert(cmds.drop_first().skip(i - 1) =~= cmds.skip(i));
    } else {
        assert(cmds.skip(0) =~= cmds);
    }
}

/// Answers the help command over the registered commands.
///
/// With no argument the reply lists every command; with the name of a
/// registered command it shows that command's detail; with any other name
/// it reports that no such command exists.
pub fn help_reply(cmds: &Vec<CommandInfo>, command: &Option<String>) -> (r: String)
    ensures
        (*command) is None ==> r@ == help_listing(cmds@),
        ((*command) matches Some(n) ==> match find_command(cmds@, n@) {
            Some(c) => r@ == help_detail(c),
            None => r@ == command_not_found(n@),
        }),
{
    match command {
        None => {
            let mut r = String::new();
            let mut i: usize = 0;
            while i < cmds.len()
                invariant
                    0 <= i <= cmds@.len(),
                    r@ == command_lines(cmds@.take(i as int)),
                decreases cmds@.len() - i,
            {
                let c = &cmds[i];
                let mut line = String::from_str(c.name.as_str());
                line.append(": ");
                line.append(c.description.as_str());
                line.append("\n");
                r.append(line.as_str());
                proof {
                    let taken = cmds@.take(i + 1 as int);
                    assert(taken.drop_last() =~= cmds@.take(i as int));
                    assert(taken.last() == cmds@[i as int]);
                    assert(r@ =~= command_lines(taken));
                }
                i += 1;
            }
            proof {
                assert(cmds@.take(cmds@.len() as int) =~= cmds@);
            }
            r.append("Test help text idk...");
            r
        },
        Some(n) => {
            let mut i: usize = 0;
            while i < cmds.len()
                invariant
                    (*command) == Some(*n),
                    0 <= i <= cmds@.len(),
                    forall|j: int| 0 <= j < i ==> cmds@[j].name@ != n@,
                decreases cmds@.len() - i,
            {
                let c = &cmds[i];
                if c.name == *n {
                    let mut r = String::from_str(c.name.as_str());
                    r.append(": ");
                    r.append(c.description.as_str());
                    proof {
                        lemma_find_skip(cmds@, n@, i as int);
                        assert(cmds@.skip(i as int)[0] == cmds@[i as int]);
                        assert(find_command(cmds@, n@) == Some(cmds@[i as int]));
                    }
                    return r;
                }
                i += 1;
            }
            proof {
                lemma_find_skip(cmds@, n@, cmds@.len() as int);
                assert(cmds@.skip(cmds@.len() as int) =~= Seq::<CommandInfo>::empty());
            }
            let mut r = String::from_str("Command ");
            r.append(n.as_str());
            r.append(" not found");
            r
        },
    }
}

/// The placeholder text of the game-info command: it names the requested
/// identifier and states that the lookup is not implemented yet.
pub open spec fn game_info_placeholder(id: u64) -> Seq<char> {
    "Getting game "@ + decimal_digits(id as nat) + "...Not yet implemented"@
}

/// Answers the game-info command: an embed whose body is the fixed
/// placeholder text naming the requested identifier. The lookup itself is
/// an acknowledged gap, so the identifier changes nothing but the text.
pub fn game_info_reply(game_id: u64, now_unix: u64) -> (r: Reply)
    ensures
        (r matches Reply::Embedded { embed } && {
            &&& embed.author_name@ == "Some game"@
            &&& embed.author_url is None
            &&& embed.description@ == game_info_placeholder(game_id)
            &&& is_base_embed(embed, now_unix)
        }),
{
    let mut content = String::from_str("Getting game ");
    let id_text = u64_to_decimal(game_id);
    content.append(id_text.as_str());
    content.append("...Not yet implemented");
    let embed = create_base_embed(now_unix).with_author(String::from_str("Some game"), None)
        .with_description(content);
    Reply::Embedded { embed }
}

/// What the collection service answered: the user's records, or one of
/// the failures the ranking command tells apart. A failure the command
/// does not name carries its detail only for the caller's log; the user
/// sees a generic message.
pub enum CollectionOutcome {
    Retrieved { items: Vec<BriefItem> },
    UnknownUsername,
    NotReady,
    OtherFailure { detail: String },
}

/// The reply when the requested username does not exist.
pub open spec fn user_not_found_message(user: Seq<char>) -> Seq<char> {
    "User "@ + user + " not found"@
}

/// The reply when the service's data was not ready after its retries.
pub open spec fn not_ready_message(user: Seq<char>) -> Seq<char> {
    "Data for "@ + user + " from BGG not yet ready, please try again shortly"@
}

/// The reply for any other service failure: generic, with no detail.
pub open spec fn unexpected_error_message(user: Seq<char>) -> Seq<char> {
    "Unexpected error requesting user "@ + user + " collection"@
}

/// The heading of a ranking reply.
pub open spec fn top10_title(user: Seq<char>) -> Seq<char> {
    user + "'s top 10"@
}

/// The link of a ranking reply's heading: the user's collection page.
pub open spec fn collection_url(user: Seq<char>) -> Seq<char> {
    "https://boardgamegeek.com/collection/user/"@ + user
}

/// The ranking reply built from the records `items`, shown in the order
/// `s`: `s` holds exactly the records of `items`, ranked by rating, and
/// the reply is the embed of its first ten lines, headed by the user's
/// name linking to their collection page.
pub open spec fn is_ranking_reply(
    r: Reply,
    user: Seq<char>,
    items: Seq<BriefItem>,
    s: Seq<BriefItem>,
    now_unix: u64,
) -> bool {
    &&& sorted_by_rating_desc(s)
    &&& s.to_multiset() == items.to_multiset()
    &&& s.len() == items.len()
    &&& (r matches Reply::Embedded { embed } && {
        &&& embed.author_name@ == top10_title(user)
        &&& (embed.author_url matches Some(u) && u@ == collection_url(user))
        &&& embed.description@ == lines_body(top_ten(s))
        &&& is_base_embed(embed, now_unix)
    })
}

/// A ranking reply shows at most ten entries — exactly ten, or the whole
/// collection when it holds fewer — ranked by rating so that ratings
/// never increase and every unrated record stands after every rated one,
/// and its body is precisely the lines of those entries.
pub proof fn lemma_ranking_reply_properties(
    r: Reply,
    user: Seq<char>,
    items: Seq<BriefItem>,
    s: Seq<BriefItem>,
    now_unix: u64,
)
    requires
        is_ranking_reply(r, user, items, s, now_unix),
    ensures
        top_ten(s).len() <= 10,
        top_ten(s).len() == if items.len() <= 10 {
            items.len() as int
        } else {
            10int
        },
        sorted_by_rating_desc(top_ten(s)),
        forall|i: int, j: int|
            0 <= i < j < top_ten(s).len() && top_ten(s)[i].rating_tenths is None
                ==> top_ten(s)[j].rating_tenths is None,
        (r matches Reply::Embedded { embed } && embed.description@ == lines_body(top_ten(s))),
{
    assert forall|i: int, j: int|
        0 <= i < j < top_ten(s).len() && top_ten(s)[i].rating_tenths is None implies top_ten(
        s,
    )[j].rating_tenths is None by {
        assert(crate::collection::rating_key(s[i]) >= crate::collection::rating_key(s[j]));
    }
}

/// A collection of no qualifying records yields a ranking reply whose
/// body is empty: an empty list, not an error.
pub proof fn lemma_empty_collection_ranking(
    r: Reply,
    user: Seq<char>,
    items: Seq<BriefItem>,
    s: Seq<BriefItem>,
    now_unix: u64,
)
    requires
        is_ranking_reply(r, user, items, s, now_unix),
        items.len() == 0,
    ensures
        (r matches Reply::Embedded { embed } && embed.description@ == Seq::<char>::empty()),
{
    assert(top_ten(s) =~= s);
}

/// Answers the ranking command for one service outcome.
///
/// A retrieved collection is ranked by rating (highest first, unrated
/// last) and its first ten entries shown under the user's name; each
/// service failure maps to its fixed message with the username filled in,
/// and nothing else of the failure reaches the user.
pub fn top10_reply(bgg_user: &String, outcome: CollectionOutcome, now_unix: u64) -> (r: Reply)
    ensures
        (outcome is UnknownUsername ==> (r matches Reply::Text { content } && content@
            == user_not_found_message(bgg_user@))),
        (outcome is NotReady ==> (r matches Reply::Text { content } && content@
            == not_ready_message(bgg_user@))),
        (outcome is OtherFailure ==> (r matches Reply::Text { content } && content@
            == unexpected_error_message(bgg_user@))),
        (outcome matches CollectionOutcome::Retrieved { items } ==> exists|s: Seq<BriefItem>|
            #[trigger] is_ranking_reply(r, bgg_user@, items@, s, now_unix)),
{
    match outcome {
        CollectionOutcome::UnknownUsername => {
            let mut content = String::from_str("User ");
            content.append(bgg_user.as_str());
            content.append(" not found");
            Reply::Text { content }
        },
        CollectionOutcome::NotReady => {
            let mut content = String::from_str("Data for ");
            content.append(bgg_user.as_str());
            content.append(" from BGG not yet ready, please try again shortly");
            Reply::Text { content }
        },
        CollectionOutcome::OtherFailure { detail: _ } => {
            let mut content = String::from_str("Unexpected error requesting user ");
            content.append(bgg_user.as_str());
            content.append(" collection");
            Reply::Text { content }
        },
        CollectionOutcome::Retrieved { items } => {
            let ghost items_view = items@;
            let games = get_games_by_user_rating_desc(items);
            let body = format_ranking_body(&games);
            let mut title = String::from_str(bgg_user.as_str());
            title.append("'s top 10");
            let mut url = String::from_str("https://boardgamegeek.com/collection/user/");
            url.append(bgg_user.as_str());
            let embed = create_base_embed(now_unix).with_author(title, Some(url)).with_description(
                body,
            );
            let r = Reply::Embedded { embed };
            proof {
                assert(is_ranking_reply(r, bgg_user@, items_view, games@, now_unix));
            }
            r
        },
    }
}

} // verus!
