//! Guild records: what is written when the bot joins a guild, and what a
//! listing of the guilds returns.

use crate::db::database::{Database, ExecutionError};
use crate::models::clock::{utc_now, Timestamp};
use vstd::prelude::*;

verus! {

/// The character of one decimal digit.
pub open spec fn digit(d: int) -> char {
    if d == 0 {
        '0'
    } else if d == 1 {
        '1'
    } else if d == 2 {
        '2'
    } else if d == 3 {
        '3'
    } else if d == 4 {
        '4'
    } else if d == 5 {
        '5'
    } else if d == 6 {
        '6'
    } else if d == 7 {
        '7'
    } else if d == 8 {
        '8'
    } else {
        '9'
    }
}

/// What a decimal digit stands for.
pub open spec fn digit_value(c: char) -> int {
    if c == '0' {
        0
    } else if c == '1' {
        1
    } else if c == '2' {
        2
    } else if c == '3' {
        3
    } else if c == '4' {
        4
    } else if c == '5' {
        5
    } else if c == '6' {
        6
    } else if c == '7' {
        7
    } else if c == '8' {
        8
    } else {
        9
    }
}

/// The decimal form of `n`: its digits from the most significant on, without
/// sign and without leading zeros.
pub open spec fn decimal_digits(n: nat) -> Seq<char>
    decreases n,
{
    if n < 10 {
        seq![digit(n as int)]
    } else {
        decimal_digits(n / 10).push(digit((n % 10) as int))
    }
}

/// The number that a string of decimal digits stands for.
pub open spec fn decimal_value(digits: Seq<char>) -> int
    decreases digits.len(),
{
    if digits.len() == 0 {
        0
    } else {
        decimal_value(digits.drop_last()) * 10 + digit_value(digits.last())
    }
}

/// Reading the decimal form of a number gives the number back.
pub proof fn lemma_decimal_value_of_digits(n: nat)
    ensures
        decimal_value(decimal_digits(n)) == n,
    decreases n,
{
    if n < 10 {
        let one = seq![digit(n as int)];
        assert(one.drop_last() =~= Seq::<char>::empty());
        assert(one.last() == digit(n as int));
        assert(decimal_value(one.drop_last()) == 0);
    } else {
        lemma_decimal_value_of_digits(n / 10);
        let all = decimal_digits(n / 10).push(digit((n % 10) as int));
        assert(all.drop_last() =~= decimal_digits(n / 10));
        assert(all.last() == digit((n % 10) as int));
    }
}

/// No two numbers have the same decimal form.
pub proof fn lemma_decimal_digits_distinct(a: nat, b: nat)
    requires
        decimal_digits(a) == decimal_digits(b),
    ensures
        a == b,
{
    lemma_decimal_value_of_digits(a);
    lemma_decimal_value_of_digits(b);
}

fn digit_text(d: u64) -> (text: &'static str)
    requires
        d < 10,
    ensures
        text@ == seq![digit(d as int)],
{
    proof {
        reveal_strlit("0");
        reveal_strlit("1");
        reveal_strlit("2");
        reveal_strlit("3");
        reveal_strlit("4");
        reveal_strlit("5");
        reveal_strlit("6");
        reveal_strlit("7");
        reveal_strlit("8");
        reveal_strlit("9");
    }
    let text = if d == 0 {
        "0"
    } else if d == 1 {
        "1"
    } else if d == 2 {
        "2"
    } else if d == 3 {
        "3"
    } else if d == 4 {
        "4"
    } else if d == 5 {
        "5"
    } else if d == 6 {
        "6"
    } else if d == 7 {
        "7"
    } else if d == 8 {
        "8"
    } else {
        "9"
    };
    assert(text@ =~= seq![digit(d as int)]);
    text
}

fn append_decimal(text: &mut String, n: u64)
    ensures
        final(text)@ == old(text)@ + decimal_digits(n as nat),
    decreases n,
{
    if n >= 10 {
        append_decimal(text, n / 10);
    }
    text.append(digit_text(n % 10));
    assert(text@ =~= old(text)@ + decimal_digits(n as nat));
}

/// The decimal form of `n`.
pub fn decimal(n: u64) -> (text: String)
    ensures
        text@ == decimal_digits(n as nat),
{
    let mut text = String::new();
    append_decimal(&mut text, n);
    assert(text@ =~= decimal_digits(n as nat));
    text
}

/// One guild that the bot has joined.
#[derive(Clone, Debug, PartialEq, Eq)]
pub struct Guild {
    /// The decimal form of the guild's numeric id.
    pub guild_id: String,
    /// When the bot joined.
    pub time_of_join: Timestamp,
}

/// A guild record as contracts see it.
pub struct GuildView {
    pub guild_id: Seq<char>,
    pub time_of_join: Timestamp,
}

impl View for Guild {
    type V = GuildView;

    open spec fn view(&self) -> GuildView {
        GuildView { guild_id: self.guild_id@, time_of_join: self.time_of_join }
    }
}

/// The record to create for a guild: in which table, under which key, and
/// with what in it.
#[derive(Clone, Debug, PartialEq, Eq)]
pub struct GuildWrite {
    pub table: String,
    pub key: u64,
    pub content: Guild,
}

/// A write as contracts see it.
pub struct GuildWriteView {
    pub table: Seq<char>,
    pub key: u64,
    pub content: GuildView,
}

impl View for GuildWrite {
    type V = GuildWriteView;

    open spec fn view(&self) -> GuildWriteView {
        GuildWriteView { table: self.table@, key: self.key, content: self.content@ }
    }
}

/// A result that could not be turned into records.
#[derive(Clone, Debug, PartialEq, Eq)]
pub struct DecodeError {
    pub reason: String,
}

/// The table of the guild records.
pub open spec fn guild_table() -> Seq<char> {
    "guild"@
}

/// The statement that lists every guild record.
pub open spec fn guild_listing_text() -> Seq<char> {
    "SELECT * FROM guild;"@
}

/// The record of the guild `guild_id`, joined at `joined`.
pub open spec fn guild_record(guild_id: u64, joined: Timestamp) -> GuildView {
    GuildView { guild_id: decimal_digits(guild_id as nat), time_of_join: joined }
}

/// The write that files the record of `guild_id` under the guild's own id.
pub open spec fn guild_write(guild_id: u64, joined: Timestamp) -> GuildWriteView {
    GuildWriteView { table: guild_table(), key: guild_id, content: guild_record(guild_id, joined) }
}

/// The views of a row of records.
pub open spec fn guild_views(guilds: Seq<Guild>) -> Seq<GuildView> {
    guilds.map_values(|guild: Guild| guild@)
}

/// What a listing returns for what was read: the records where the query went
/// through and its first result could be turned into records, however many
/// there are, and nothing otherwise.
pub open spec fn guilds_listed(read: Result<Result<Seq<GuildView>, Seq<char>>, Seq<char>>) -> Option<
    Seq<GuildView>,
> {
    match read {
        Ok(Ok(guilds)) => Some(guilds),
        _ => None,
    }
}

/// The view of what was read for a listing.
pub open spec fn read_view(read: Result<Result<Vec<Guild>, DecodeError>, ExecutionError>) -> Result<
    Result<Seq<GuildView>, Seq<char>>,
    Seq<char>,
> {
    match read {
        Ok(Ok(guilds)) => Ok(Ok(guild_views(guilds@))),
        Ok(Err(error)) => Ok(Err(error.reason@)),
        Err(error) => Err(error.reason@),
    }
}

/// The view of a listing.
pub open spec fn listed_view(listed: Option<Vec<Guild>>) -> Option<Seq<GuildView>> {
    match listed {
        Some(guilds) => Some(guild_views(guilds@)),
        None => None,
    }
}

impl Guild {
    /// The write for a guild that was joined at the instant `at`.
    pub fn joined(guild_id: u64, at: Timestamp) -> (write: GuildWrite)
        ensures
            write@ == guild_write(guild_id, at),
    {
        GuildWrite {
            table: String::from_str("guild"),
            key: guild_id,
            content: Guild { guild_id: decimal(guild_id), time_of_join: at },
        }
    }

    /// The statement that lists every guild record.
    pub fn listing_query() -> (text: String)
        ensures
            text@ == guild_listing_text(),
    {
        String::from_str("SELECT * FROM guild;")
    }
}

/// The guild records of a database.
pub trait GuildData: Sized {
    /// The write to make now that the bot has joined `guild_id`: the guild's
    /// record, with the clock's reading as the time of the join. The number of
    /// members has no part in it.
    ///
    /// The write is the caller's to send. Whether a record with that key was
    /// there before is not looked at, and nothing comes back from it.
    fn joined_guild(db: &Self, members: u64, guild_id: u64) -> (write: GuildWrite)
        ensures
            write@ == guild_write(guild_id, write.content.time_of_join),
            write.content.time_of_join.is_clock_reading(),
    ;

    /// The guilds that a listing has read, or nothing where the query or the
    /// reading of its result failed. An empty table gives an empty listing.
    fn get_all_guilds(
        db: &Self,
        read: Result<Result<Vec<Guild>, DecodeError>, ExecutionError>,
    ) -> (listed: Option<Vec<Guild>>)
        ensures
            listed_view(listed) == guilds_listed(read_view(read)),
            read matches Ok(Ok(guilds)) ==> listed == Some(guilds),
    ;
}

impl<C> GuildData for Database<C> {
    fn joined_guild(db: &Self, members: u64, guild_id: u64) -> (write: GuildWrite) {
        let now = utc_now();
        Guild::joined(guild_id, now)
    }

    fn get_all_guilds(
        db: &Self,
        read: Result<Result<Vec<Guild>, DecodeError>, ExecutionError>,
    ) -> (listed: Option<Vec<Guild>>) {
        match read {
            Ok(Ok(guilds)) => Some(guilds),
            _ => None,
        }
    }
}

/// Where the table holds one record for each guild that was joined, and no
/// guild twice, a listing of it holds exactly one record with the decimal
/// form of each guild's id: the record of that guild.
pub proof fn lemma_joined_guild_listed_once(ids: Seq<u64>, times: Seq<Timestamp>, joined: int)
    requires
        ids.len() == times.len(),
        ids.no_duplicates(),
        0 <= joined < ids.len(),
    ensures
        ({
            let table = Seq::new(ids.len(), |i: int| guild_record(ids[i], times[i]));
            &&& guilds_listed(Ok(Ok(table))) == Some(table)
            &&& forall|i: int|
                0 <= i < table.len() ==> (#[trigger] table[i].guild_id == decimal_digits(
                    ids[joined] as nat,
                ) <==> i == joined)
        }),
{
    let table = Seq::new(ids.len(), |i: int| guild_record(ids[i], times[i]));
    assert forall|i: int| 0 <= i < table.len() implies (#[trigger] table[i].guild_id
        == decimal_digits(ids[joined] as nat) <==> i == joined) by {
        if table[i].guild_id == decimal_digits(ids[joined] as nat) {
            lemma_decimal_digits_distinct(ids[i] as nat, ids[joined] as nat);
        }
    }
}

} // verus!
