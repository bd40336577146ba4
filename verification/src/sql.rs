//! Text that goes into queries for the column store: string literals,
//! identifiers, and the statement that deletes old rows.

use vstd::prelude::*;
use vstd::string::*;
use crate::text::{dec_text, push_char, push_decimal};

verus! {

/// A character as it stands inside a quoted string literal: a backslash
/// before a backslash and before a single quote.
pub open spec fn escaped_char(c: char) -> Seq<char> {
    if c == '\\' {
        seq!['\\', '\\']
    } else if c == '\'' {
        seq!['\\', '\'']
    } else {
        seq![c]
    }
}

/// A text as it stands inside a quoted string literal.
pub open spec fn escaped_text(s: Seq<char>) -> Seq<char>
    decreases s.len(),
{
    if s.len() == 0 {
        Seq::empty()
    } else {
        escaped_text(s.drop_last()) + escaped_char(s.last())
    }
}

/// A character as it stands inside a backtick-quoted identifier: a backtick
/// is doubled.
pub open spec fn identifier_char(c: char) -> Seq<char> {
    if c == '`' {
        seq!['`', '`']
    } else {
        seq![c]
    }
}

/// A name as it stands inside a backtick-quoted identifier.
pub open spec fn escaped_identifier(s: Seq<char>) -> Seq<char>
    decreases s.len(),
{
    if s.len() == 0 {
        Seq::empty()
    } else {
        escaped_identifier(s.drop_last()) + identifier_char(s.last())
    }
}

/// Appends `input` as it stands inside a quoted string literal.
pub fn push_escaped(out: &mut String, input: &str)
    ensures
        final(out)@ == old(out)@ + escaped_text(input@),
{
    let chars = input.chars();
    assert(input@.take(0) =~= Seq::<char>::empty());
    for c in it: chars
        invariant
            it.seq() == input@,
            out@ == old(out)@ + escaped_text(input@.take(it.index() as int)),
    {
        proof {
            let next = input@.take(it.index() + 1);
            assert(next.drop_last() =~= input@.take(it.index() as int));
            assert(next.last() == c);
        }
        let ghost before = out@;
        if c == '\\' {
            push_char(out, '\\');
            push_char(out, '\\');
        } else if c == '\'' {
            push_char(out, '\\');
            push_char(out, '\'');
        } else {
            push_char(out, c);
        }
        assert(out@ =~= before + escaped_char(c));
        assert(out@ =~= old(out)@ + escaped_text(input@.take(it.index() + 1)));
    }
    assert(input@.take(input@.len() as int) =~= input@);
}

/// Escapes a text for a quoted string literal: `\` becomes `\\` and `'`
/// becomes `\'`.
pub fn escape_clickhouse_string(input: &str) -> (r: String)
    ensures
        r@ == escaped_text(input@),
{
    let mut r = String::new();
    push_escaped(&mut r, input);
    assert(r@ =~= escaped_text(input@));
    r
}

/// Appends `input` as it stands inside a backtick-quoted identifier.
pub fn push_identifier(out: &mut String, input: &str)
    ensures
        final(out)@ == old(out)@ + escaped_identifier(input@),
{
    let chars = input.chars();
    assert(input@.take(0) =~= Seq::<char>::empty());
    for c in it: chars
        invariant
            it.seq() == input@,
            out@ == old(out)@ + escaped_identifier(input@.take(it.index() as int)),
    {
        proof {
            let next = input@.take(it.index() + 1);
            assert(next.drop_last() =~= input@.take(it.index() as int));
            assert(next.last() == c);
        }
        let ghost before = out@;
        if c == '`' {
            push_char(out, '`');
            push_char(out, '`');
        } else {
            push_char(out, c);
        }
        assert(out@ =~= before + identifier_char(c));
        assert(out@ =~= old(out)@ + escaped_identifier(input@.take(it.index() + 1)));
    }
    assert(input@.take(input@.len() as int) =~= input@);
}

/// Escapes a name for a backtick-quoted identifier: a backtick is doubled.
pub fn escape_clickhouse_identifier(input: &str) -> (r: String)
    ensures
        r@ == escaped_identifier(input@),
{
    let mut r = String::new();
    push_identifier(&mut r, input);
    assert(r@ =~= escaped_identifier(input@));
    r
}

/// A text as a quoted string literal.
pub open spec fn quoted(s: Seq<char>) -> Seq<char> {
    seq!['\''] + escaped_text(s) + seq!['\'']
}

/// Texts as quoted string literals, with a comma and a space between each
/// two.
pub open spec fn quoted_list(items: Seq<Seq<char>>) -> Seq<char>
    decreases items.len(),
{
    if items.len() == 0 {
        Seq::empty()
    } else if items.len() == 1 {
        quoted(items[0])
    } else {
        quoted_list(items.drop_last()) + seq![',', ' '] + quoted(items.last())
    }
}

/// The texts of a list of strings.
pub open spec fn texts(items: Seq<String>) -> Seq<Seq<char>> {
    Seq::new(items.len(), |i: int| items[i]@)
}

/// The table of captured requests in database `db`, as it is named in a
/// statement.
pub open spec fn table_text(db: Seq<char>) -> Seq<char> {
    seq!['`'] + escaped_identifier(db) + "`.`requests`"@
}

/// Appends the name of the table of captured requests.
pub fn push_table(out: &mut String, database: &str)
    ensures
        final(out)@ == old(out)@ + table_text(database@),
{
    push_char(out, '`');
    push_identifier(out, database);
    out.append("`.`requests`");
    assert(out@ =~= old(out)@ + table_text(database@));
}

/// The statement that deletes the rows of `user_ids` that are older than
/// `days` days.
pub open spec fn delete_sql_text(db: Seq<char>, user_ids: Seq<Seq<char>>, days: u32) -> Seq<char> {
    "ALTER TABLE "@ + table_text(db) + " DELETE WHERE user_id IN ("@ + quoted_list(user_ids)
        + ") AND received_at < now() - INTERVAL "@ + dec_text(days as nat) + " DAY"@
}

/// Builds the statement that deletes the rows of the given users that are
/// older than `retention_days` days; `None` for no users.
pub fn build_delete_sql(database: &str, user_ids: &[String], retention_days: u32) -> (sql: Option<
    String,
>)
    ensures
        user_ids@.len() == 0 ==> sql is None,
        user_ids@.len() > 0 ==> (sql matches Some(s) && s@ == delete_sql_text(
            database@,
            texts(user_ids@),
            retention_days,
        )),
{
    let n: usize = user_ids.len();
    if n == 0 {
        return None;
    }
    let mut sql = String::from_str("ALTER TABLE ");
    push_table(&mut sql, database);
    sql.append(" DELETE WHERE user_id IN (");
    let ghost head = sql@;
    let ghost ids = texts(user_ids@);
    let mut i: usize = 0;
    assert(ids.take(0) =~= Seq::<Seq<char>>::empty());
    while i < n
        invariant
            n == user_ids@.len(),
            ids == texts(user_ids@),
            i <= n,
            sql@ == head + quoted_list(ids.take(i as int)),
        decreases n - i,
    {
        let ghost before = sql@;
        if i > 0 {
            sql.append(", ");
        }
        push_char(&mut sql, '\'');
        push_escaped(&mut sql, user_ids[i].as_str());
        push_char(&mut sql, '\'');
        proof {
            reveal_strlit(", ");
            let next = ids.take(i + 1);
            assert(next.drop_last() =~= ids.take(i as int));
            assert(next.last() == user_ids@[i as int]@);
            if i > 0 {
                assert(sql@ =~= before + seq![',', ' '] + quoted(next.last()));
            } else {
                assert(next[0] == next.last());
                assert(sql@ =~= before + quoted(next.last()));
            }
            assert(sql@ =~= head + quoted_list(next));
        }
        i += 1;
    }
    assert(ids.take(n as int) =~= ids);
    sql.append(") AND received_at < now() - INTERVAL ");
    push_decimal(&mut sql, retention_days as u64);
    sql.append(" DAY");
    assert(sql@ =~= delete_sql_text(database@, ids, retention_days));
    Some(sql)
}

/// Where a lexer finds the quote that ends a string literal, for a literal
/// whose body begins at `pos` in `text`: a backslash takes the character after
/// it along, and a doubled quote stands for a quote. `None` where the literal
/// does not end.
pub open spec fn literal_end(text: Seq<char>, pos: int) -> Option<int>
    decreases text.len() - pos,
{
    if pos < 0 || pos >= text.len() {
        None
    } else if text[pos] == '\\' {
        if pos + 1 < text.len() {
            literal_end(text, pos + 2)
        } else {
            None
        }
    } else if text[pos] == '\'' {
        if pos + 1 < text.len() && text[pos + 1] == '\'' {
            literal_end(text, pos + 2)
        } else {
            Some(pos)
        }
    } else {
        literal_end(text, pos + 1)
    }
}

/// The text that the body of a string literal stands for.
pub open spec fn unescaped_text(body: Seq<char>) -> Seq<char>
    decreases body.len(),
{
    if body.len() == 0 {
        Seq::empty()
    } else if body[0] == '\\' && body.len() >= 2 {
        seq![body[1]] + unescaped_text(body.skip(2))
    } else {
        seq![body[0]] + unescaped_text(body.skip(1))
    }
}

/// Where a lexer finds the backtick that ends a quoted identifier whose body
/// begins at `pos` in `text`: a doubled backtick stands for a backtick.
pub open spec fn identifier_end(text: Seq<char>, pos: int) -> Option<int>
    decreases text.len() - pos,
{
    if pos < 0 || pos >= text.len() {
        None
    } else if text[pos] == '`' {
        if pos + 1 < text.len() && text[pos + 1] == '`' {
            identifier_end(text, pos + 2)
        } else {
            Some(pos)
        }
    } else {
        identifier_end(text, pos + 1)
    }
}

/// Escaping goes character by character.
pub proof fn lemma_escaped_concat(a: Seq<char>, b: Seq<char>)
    ensures
        escaped_text(a + b) == escaped_text(a) + escaped_text(b),
    decreases b.len(),
{
    if b.len() == 0 {
        assert(a + b =~= a);
        assert(escaped_text(a) + escaped_text(b) =~= escaped_text(a));
    } else {
        lemma_escaped_concat(a, b.drop_last());
        assert((a + b).drop_last() =~= a + b.drop_last());
        assert((a + b).last() == b.last());
        assert(escaped_text(a + b) =~= escaped_text(a) + escaped_text(b));
    }
}

/// Escaping of an identifier goes character by character.
pub proof fn lemma_identifier_concat(a: Seq<char>, b: Seq<char>)
    ensures
        escaped_identifier(a + b) == escaped_identifier(a) + escaped_identifier(b),
    decreases b.len(),
{
    if b.len() == 0 {
        assert(a + b =~= a);
        assert(escaped_identifier(a) + escaped_identifier(b) =~= escaped_identifier(a));
    } else {
        lemma_identifier_concat(a, b.drop_last());
        assert((a + b).drop_last() =~= a + b.drop_last());
        assert((a + b).last() == b.last());
        assert(escaped_identifier(a + b) =~= escaped_identifier(a) + escaped_identifier(b));
    }
}

proof fn lemma_escaped_front(s: Seq<char>)
    requires
        s.len() > 0,
    ensures
        escaped_text(s) == escaped_char(s[0]) + escaped_text(s.drop_first()),
{
    lemma_escaped_concat(seq![s[0]], s.drop_first());
    assert(seq![s[0]] + s.drop_first() =~= s);
    assert(seq![s[0]].drop_last() =~= Seq::<char>::empty());
    assert(escaped_text(seq![s[0]]) =~= escaped_char(s[0])) by {
        reveal_with_fuel(escaped_text, 2);
        assert(seq![s[0]].last() == s[0]);
    }
}

proof fn lemma_identifier_front(s: Seq<char>)
    requires
        s.len() > 0,
    ensures
        escaped_identifier(s) == identifier_char(s[0]) + escaped_identifier(s.drop_first()),
{
    lemma_identifier_concat(seq![s[0]], s.drop_first());
    assert(seq![s[0]] + s.drop_first() =~= s);
    assert(seq![s[0]].drop_last() =~= Seq::<char>::empty());
    assert(escaped_identifier(seq![s[0]]) =~= identifier_char(s[0])) by {
        reveal_with_fuel(escaped_identifier, 2);
        assert(seq![s[0]].last() == s[0]);
    }
}

/// A text without backslash and quote stands in a literal as it is.
pub proof fn lemma_escape_plain(s: Seq<char>)
    requires
        forall|i: int| 0 <= i < s.len() ==> #[trigger] s[i] != '\\' && s[i] != '\'',
    ensures
        escaped_text(s) == s,
    decreases s.len(),
{
    if s.len() > 0 {
        lemma_escape_plain(s.drop_last());
        assert(escaped_text(s) =~= s);
    }
}

/// No text breaks out of its string literal. Whatever `s` holds, in a
/// statement where `s` stands escaped between two quotes, the literal that
/// begins after the first quote ends at the second one, so that nothing of `s`
/// is read as anything but the literal's body. What follows the literal must
/// not begin with a quote, which no statement of this library does.
pub proof fn lemma_literal_closes(s: Seq<char>, before: Seq<char>, after: Seq<char>)
    requires
        after.len() == 0 || after[0] != '\'',
    ensures
        literal_end(before + escaped_text(s) + seq!['\''] + after, before.len() as int) == Some(
            (before.len() + escaped_text(s).len()) as int,
        ),
    decreases s.len(),
{
    let text = before + escaped_text(s) + seq!['\''] + after;
    let pos = before.len() as int;
    if s.len() == 0 {
        assert(text[pos] == '\'');
        if after.len() > 0 {
            assert(text[pos + 1] == after[0]);
        }
    } else {
        lemma_escaped_front(s);
        let head = escaped_char(s[0]);
        let rest = s.drop_first();
        lemma_literal_closes(rest, before + head, after);
        assert(text =~= (before + head) + escaped_text(rest) + seq!['\''] + after);
        assert(text[pos] == head[0]);
        if s[0] == '\\' || s[0] == '\'' {
            assert(text[pos] == '\\');
            assert(pos + 1 < text.len());
        } else {
            assert(text[pos] == s[0]);
        }
    }
}

/// The body of a literal stands for the text that was escaped.
pub proof fn lemma_unescape_escaped(s: Seq<char>)
    ensures
        unescaped_text(escaped_text(s)) == s,
    decreases s.len(),
{
    if s.len() > 0 {
        lemma_escaped_front(s);
        let rest = s.drop_first();
        lemma_unescape_escaped(rest);
        let body = escaped_text(s);
        if s[0] == '\\' || s[0] == '\'' {
            assert(body[0] == '\\');
            assert(body[1] == s[0]);
            assert(body.skip(2) =~= escaped_text(rest));
        } else {
            assert(body[0] == s[0]);
            assert(body.skip(1) =~= escaped_text(rest));
        }
        assert(seq![s[0]] + rest =~= s);
    }
}

/// No name breaks out of its quoted identifier. Whatever `name` holds, in a
/// statement where it stands escaped between two backticks, the identifier
/// that begins after the first backtick ends at the second one, for a lexer
/// that reads a doubled backtick as a backtick. What follows the identifier
/// must not begin with a backtick, which no statement of this library does.
pub proof fn lemma_identifier_closes(name: Seq<char>, before: Seq<char>, after: Seq<char>)
    requires
        after.len() == 0 || after[0] != '`',
    ensures
        identifier_end(before + escaped_identifier(name) + seq!['`'] + after, before.len() as int)
            == Some((before.len() + escaped_identifier(name).len()) as int),
    decreases name.len(),
{
    let text = before + escaped_identifier(name) + seq!['`'] + after;
    let pos = before.len() as int;
    if name.len() == 0 {
        assert(text[pos] == '`');
        if after.len() > 0 {
            assert(text[pos + 1] == after[0]);
        }
    } else {
        lemma_identifier_front(name);
        let head = identifier_char(name[0]);
        let rest = name.drop_first();
        lemma_identifier_closes(rest, before + head, after);
        assert(text =~= (before + head) + escaped_identifier(rest) + seq!['`'] + after);
        assert(text[pos] == head[0]);
        if name[0] == '`' {
            assert(text[pos + 1] == '`');
        }
    }
}

/// The name of the database stands in its identifier. Wherever the table is
/// named, the identifier that begins after the first backtick ends at the
/// backtick that the builder wrote after the escaped name, whatever the name
/// holds.
pub proof fn lemma_table_identifier_closes(before: Seq<char>, db: Seq<char>, after: Seq<char>)
    ensures
        identifier_end(before + table_text(db) + after, (before.len() + 1) as int) == Some(
            (before.len() + 1 + escaped_identifier(db).len()) as int,
        ),
{
    reveal_strlit("`.`requests`");
    let rest = "`.`requests`"@.skip(1) + after;
    assert(rest[0] == '.');
    assert(before + table_text(db) + after =~= (before + seq!['`']) + escaped_identifier(db)
        + seq!['`'] + rest);
    lemma_identifier_closes(db, before + seq!['`'], rest);
}

/// What follows a literal in a list: the later literals, each after a comma
/// and a space.
pub open spec fn listed_after(items: Seq<Seq<char>>) -> Seq<char>
    decreases items.len(),
{
    if items.len() == 0 {
        Seq::empty()
    } else {
        seq![',', ' '] + quoted(items[0]) + listed_after(items.drop_first())
    }
}

proof fn lemma_listed_after_push(items: Seq<Seq<char>>, last: Seq<char>)
    ensures
        listed_after(items.push(last)) == listed_after(items) + seq![',', ' '] + quoted(last),
    decreases items.len(),
{
    if items.len() == 0 {
        reveal_with_fuel(listed_after, 2);
        assert(items.push(last).drop_first() =~= Seq::<Seq<char>>::empty());
        assert(items.push(last)[0] == last);
        assert(listed_after(items.push(last)) =~= seq![',', ' '] + quoted(last));
        assert(listed_after(items) + seq![',', ' '] + quoted(last) =~= seq![',', ' '] + quoted(
            last,
        ));
    } else {
        lemma_listed_after_push(items.drop_first(), last);
        assert(items.push(last).drop_first() =~= items.drop_first().push(last));
        assert(listed_after(items.push(last)) =~= listed_after(items) + seq![',', ' '] + quoted(
            last,
        ));
    }
}

/// A list is its first literals and what follows them.
pub proof fn lemma_quoted_list_split(items: Seq<Seq<char>>, k: int)
    requires
        0 <= k < items.len(),
    ensures
        quoted_list(items) == quoted_list(items.take(k + 1)) + listed_after(items.skip(k + 1)),
    decreases items.len(),
{
    if k == items.len() - 1 {
        assert(items.take(k + 1) =~= items);
        assert(items.skip(k + 1) =~= Seq::<Seq<char>>::empty());
        assert(quoted_list(items) + listed_after(items.skip(k + 1)) =~= quoted_list(items));
    } else {
        let front = items.drop_last();
        lemma_quoted_list_split(front, k);
        assert(front.take(k + 1) =~= items.take(k + 1));
        lemma_listed_after_push(front.skip(k + 1), items.last());
        assert(front.skip(k + 1).push(items.last()) =~= items.skip(k + 1));
        assert(quoted_list(items) == quoted_list(front) + seq![',', ' '] + quoted(items.last()));
        assert(quoted_list(items) =~= quoted_list(items.take(k + 1)) + listed_after(
            items.skip(k + 1),
        ));
    }
}

/// What stands in a delete statement before the list of users.
pub open spec fn before_users(db: Seq<char>) -> Seq<char> {
    "ALTER TABLE "@ + table_text(db) + " DELETE WHERE user_id IN ("@
}

/// Where the body of the literal of the `k`-th user begins in a delete
/// statement.
pub open spec fn user_literal_start(db: Seq<char>, user_ids: Seq<Seq<char>>, k: int) -> int {
    if k == 0 {
        (before_users(db).len() + 1) as int
    } else {
        (before_users(db).len() + quoted_list(user_ids.take(k)).len() + 3) as int
    }
}

/// Each user stands in its literal. In every delete statement that is built,
/// the literal of each user ends at the quote that the builder wrote after the
/// escaped text, whatever the text holds.
pub proof fn lemma_listed_literal_closes(
    db: Seq<char>,
    user_ids: Seq<Seq<char>>,
    days: u32,
    k: int,
)
    requires
        0 <= k < user_ids.len(),
    ensures
        literal_end(delete_sql_text(db, user_ids, days), user_literal_start(db, user_ids, k))
            == Some(user_literal_start(db, user_ids, k) + escaped_text(user_ids[k]).len()),
{
    reveal_strlit(") AND received_at < now() - INTERVAL ");
    let close = ") AND received_at < now() - INTERVAL "@ + dec_text(days as nat) + " DAY"@;
    assert(close[0] == ')');
    lemma_quoted_list_split(user_ids, k);
    let upto = user_ids.take(k + 1);
    let later = listed_after(user_ids.skip(k + 1));
    let after = later + close;
    assert(after[0] != '\'') by {
        if user_ids.skip(k + 1).len() > 0 {
            assert(later[0] == ',');
        } else {
            assert(later.len() == 0);
        }
    }
    let lead: Seq<char> = if k == 0 {
        before_users(db) + seq!['\'']
    } else {
        before_users(db) + quoted_list(user_ids.take(k)) + seq![',', ' '] + seq!['\'']
    };
    assert(upto.last() == user_ids[k]);
    assert(upto.drop_last() =~= user_ids.take(k));
    if k == 0 {
        assert(upto[0] == user_ids[k]);
        assert(before_users(db) + quoted_list(upto) =~= lead + escaped_text(user_ids[k]) + seq![
            '\'',
        ]);
    } else {
        assert(before_users(db) + quoted_list(upto) =~= lead + escaped_text(user_ids[k]) + seq![
            '\'',
        ]);
    }
    assert(delete_sql_text(db, user_ids, days) =~= lead + escaped_text(user_ids[k]) + seq!['\'']
        + after);
    assert(lead.len() == user_literal_start(db, user_ids, k));
    lemma_literal_closes(user_ids[k], lead, after);
}

} // verus!
