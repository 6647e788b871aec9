//! Presentation of replies: ranking lines, message texts, and the embed
//! envelope.
//!
//! Every reply the bot sends is either plain text or an embed. Embeds all
//! share the same accent colour and a footer crediting the bot's source
//! repository; the timestamp is whatever moment the caller supplies. The
//! ranking body renders one line per game: the name as a link to the
//! game's page, then the user's rating or the label "Unrated".

use vstd::prelude::*;

use crate::collection::BriefItem;
use crate::numfmt::decimal_digits;
use crate::numfmt::rating_text;
use crate::numfmt::rating_to_string;
use crate::numfmt::u64_to_decimal;

verus! {

/// The rating label of a record: the rating's text, or "Unrated" when the
/// user has not rated the game.
pub open spec fn rating_label(r: Option<u64>) -> Seq<char> {
    match r {
        Some(t) => rating_text(t as nat),
        None => "Unrated"@,
    }
}

/// Renders the rating label of a record.
pub fn rating_label_string(r: &Option<u64>) -> (s: String)
    ensures
        s@ == rating_label(*r),
{
    match r {
        Some(t) => rating_to_string(*t),
        None => String::from_str("Unrated"),
    }
}

/// One line of the ranking: the game's name as a link to its page,
/// followed by the rating label in parentheses.
pub open spec fn game_line(item: BriefItem) -> Seq<char> {
    "- ["@ + item.name@ + "](https://boardgamegeek.com/boardgame/"@ + decimal_digits(
        item.id as nat,
    ) + ") - ("@ + rating_label(item.rating_tenths) + ")\n"@
}

/// Renders one ranking line.
pub fn format_game_line(item: &BriefItem) -> (r: String)
    ensures
        r@ == game_line(*item),
{
    let mut s = String::from_str("- [");
    s.append(item.name.as_str());
    s.append("](https://boardgamegeek.com/boardgame/");
    let id_text = u64_to_decimal(item.id);
    s.append(id_text.as_str());
    s.append(") - (");
    let label = rating_label_string(&item.rating_tenths);
    s.append(label.as_str());
    s.append(")\n");
    s
}

/// The body of a ranking reply: the lines of the given records, with a
/// blank line between entries (each line already ends in a newline).
pub open spec fn lines_body(items: Seq<BriefItem>) -> Seq<char>
    decreases items.len(),
{
    if items.len() == 0 {
        Seq::empty()
    } else if items.len() == 1 {
        game_line(items[0])
    } else {
        lines_body(items.drop_last()) + "\n"@ + game_line(items.last())
    }
}

/// The records a ranking shows: the first ten, or all of them when there
/// are fewer.
pub open spec fn top_ten(s: Seq<BriefItem>) -> Seq<BriefItem> {
    if s.len() <= 10 {
        s
    } else {
        s.take(10)
    }
}

/// A ranking never shows more than ten entries.
pub proof fn lemma_ranking_shows_at_most_ten(s: Seq<BriefItem>)
    ensures
        top_ten(s).len() <= 10,
{
}

/// A collection with no qualifying records renders an empty ranking body,
/// not an error.
pub proof fn lemma_empty_collection_empty_body(s: Seq<BriefItem>)
    requires
        s.len() == 0,
    ensures
        lines_body(top_ten(s)) == Seq::<char>::empty(),
{
}

/// Renders the ranking body for the ten highest entries of `games`.
pub fn format_ranking_body(games: &Vec<BriefItem>) -> (r: String)
    ensures
        r@ == lines_body(top_ten(games@)),
{
    let count: usize = if games.len() <= 10 {
        games.len()
    } else {
        10
    };
    let mut r = String::new();
    let mut i: usize = 0;
    while i < count
        invariant
            0 <= i <= count <= games@.len(),
            count == top_ten(games@).len(),
            r@ == lines_body(games@.take(i as int)),
        decreases count - i,
    {
        if i > 0 {
            r.append("\n");
        }
        let line = format_game_line(&games[i]);
        r.append(line.as_str());
        proof {
            let taken = games@.take(i + 1 as int);
            assert(taken.drop_last() =~= games@.take(i as int));
            assert(taken.last() == games@[i as int]);
            assert(r@ =~= lines_body(taken));
        }
        i += 1;
    }
    proof {
        assert(games@.take(count as int) =~= top_ten(games@));
    }
    r
}

/// A reply embed: the styled envelope wrapping a command's content.
/// The colour fields hold the accent colour; the timestamp is seconds
/// since the Unix epoch.
pub struct Embed {
    pub author_name: String,
    pub author_url: Option<String>,
    pub description: String,
    pub colour_red: u8,
    pub colour_green: u8,
    pub colour_blue: u8,
    pub footer_text: String,
    pub timestamp_unix: u64,
}

/// The fields every embed of this bot shares: the accent colour, the
/// source-repository footer, and the moment the caller supplied.
pub open spec fn is_base_embed(e: Embed, now_unix: u64) -> bool {
    &&& e.colour_red == 0u8
    &&& e.colour_green == 176u8
    &&& e.colour_blue == 255u8
    &&& e.footer_text@ == "Bot source: https://github.com/MatthewThompson/BlueBGG"@
    &&& e.timestamp_unix == now_unix
}

/// Creates an embed with the default fields set: the shared footer and
/// accent colour, a timestamp of the given moment, and no content yet.
pub fn create_base_embed(now_unix: u64) -> (e: Embed)
    ensures
        is_base_embed(e, now_unix),
        e.author_name@ == Seq::<char>::empty(),
        e.author_url is None,
        e.description@ == Seq::<char>::empty(),
{
    Embed {
        author_name: String::new(),
        author_url: None,
        description: String::new(),
        colour_red: 0,
        colour_green: 176,
        colour_blue: 255,
        footer_text: String::from_str("Bot source: https://github.com/MatthewThompson/BlueBGG"),
        timestamp_unix: now_unix,
    }
}

impl Embed {
    /// Sets the author line: the embed's heading text and its optional
    /// link. Every other field keeps its value.
    pub fn with_author(self, name: String, url: Option<String>) -> (e: Embed)
        ensures
            e == (Embed { author_name: name, author_url: url, ..self }),
    {
        Embed { author_name: name, author_url: url, ..self }
    }

    /// Sets the description: the embed's body text. Every other field
    /// keeps its value.
    pub fn with_description(self, text: String) -> (e: Embed)
        ensures
            e == (Embed { description: text, ..self }),
    {
        Embed { description: text, ..self }
    }
}

/// A reply the bot sends back: plain text, or an embed.
pub enum Reply {
    Text { content: String },
    Embedded { embed: Embed },
}

} // verus!
