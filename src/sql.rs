//! The SQL text the relational adapter sends: keys and values are stored as integer
//! arrays, written as literals such as `'{1,2,3}'`.
use vstd::prelude::*;
use crate::bytes::opt_bytes;
use crate::cache::copy_bytes;

verus! {

/// The decimal digit `d`.
pub open spec fn digit_text(d: nat) -> Seq<char> {
    if d == 0 {
        "0"@
    } else if d == 1 {
        "1"@
    } else if d == 2 {
        "2"@
    } else if d == 3 {
        "3"@
    } else if d == 4 {
        "4"@
    } else if d == 5 {
        "5"@
    } else if d == 6 {
        "6"@
    } else if d == 7 {
        "7"@
    } else if d == 8 {
        "8"@
    } else {
        "9"@
    }
}

/// `n` in decimal, without leading zeros.
pub open spec fn decimal(n: nat) -> Seq<char>
    decreases n,
{
    if n < 10 {
        digit_text(n)
    } else {
        decimal(n / 10) + digit_text(n % 10)
    }
}

/// The bytes of `s` in decimal, separated by commas.
pub open spec fn byte_list(s: Seq<u8>) -> Seq<char>
    decreases s.len(),
{
    if s.len() == 0 {
        Seq::empty()
    } else if s.len() == 1 {
        decimal(s[0] as nat)
    } else {
        byte_list(s.drop_last()) + ","@ + decimal(s.last() as nat)
    }
}

/// The integer-array literal holding the bytes of `s`.
pub open spec fn array_text(s: Seq<u8>) -> Seq<char> {
    "'{"@ + byte_list(s) + "}'"@
}

/// The array literals of `keys`, separated by `", "`.
pub open spec fn array_list(keys: Seq<Seq<u8>>) -> Seq<char>
    decreases keys.len(),
{
    if keys.len() == 0 {
        Seq::empty()
    } else if keys.len() == 1 {
        array_text(keys[0])
    } else {
        array_list(keys.drop_last()) + ", "@ + array_text(keys.last())
    }
}

/// One row of an insert: `(key, value)`.
pub open spec fn row_text(row: (Seq<u8>, Seq<u8>)) -> Seq<char> {
    "("@ + array_text(row.0) + ", "@ + array_text(row.1) + ")"@
}

/// The rows of an insert, separated by `", "`.
pub open spec fn row_list(rows: Seq<(Seq<u8>, Seq<u8>)>) -> Seq<char>
    decreases rows.len(),
{
    if rows.len() == 0 {
        Seq::empty()
    } else if rows.len() == 1 {
        row_text(rows[0])
    } else {
        row_list(rows.drop_last()) + ", "@ + row_text(rows.last())
    }
}

/// The statement that creates table `t` when it is missing.
pub open spec fn create_sql(t: Seq<char>) -> Seq<char> {
    "CREATE TABLE IF NOT EXISTS "@ + t + " (key integer[], value integer[], PRIMARY KEY (key));"@
}

/// The query for the value stored under `k` in table `t`.
pub open spec fn select_sql(t: Seq<char>, k: Seq<u8>) -> Seq<char> {
    "SELECT value FROM "@ + t + " WHERE key = "@ + array_text(k) + ";"@
}

/// One statement that inserts `rows` into table `t`, updating the value of a key that
/// is already there.
pub open spec fn upsert_sql(t: Seq<char>, rows: Seq<(Seq<u8>, Seq<u8>)>) -> Seq<char> {
    "INSERT INTO "@ + t + " (key, value) VALUES "@ + row_list(rows)
        + " ON CONFLICT (key) DO UPDATE SET value = EXCLUDED.value;"@
}

/// One statement that removes `keys` from table `t`.
pub open spec fn delete_sql(t: Seq<char>, keys: Seq<Seq<u8>>) -> Seq<char> {
    "DELETE FROM "@ + t + " WHERE key IN ("@ + array_list(keys) + ");"@
}

/// The views of a sequence of byte vectors.
pub open spec fn key_views(keys: Seq<Vec<u8>>) -> Seq<Seq<u8>> {
    keys.map_values(|k: Vec<u8>| k@)
}

/// The views of a sequence of pairs of byte vectors.
pub open spec fn row_views(rows: Seq<(Vec<u8>, Vec<u8>)>) -> Seq<(Seq<u8>, Seq<u8>)> {
    rows.map_values(|r: (Vec<u8>, Vec<u8>)| (r.0@, r.1@))
}

/// The decimal digit `d`, as text.
fn digit_str(d: u8) -> (r: &'static str)
    requires
        d < 10,
    ensures
        r@ == digit_text(d as nat),
{
    if d == 0 {
        "0"
    } else if d == 1 {
        "1"
    } else if d == 2 {
        "2"
    } else if d == 3 {
        "3"
    } else if d == 4 {
        "4"
    } else if d == 5 {
        "5"
    } else if d == 6 {
        "6"
    } else if d == 7 {
        "7"
    } else if d == 8 {
        "8"
    } else {
        "9"
    }
}

/// Appends `n` in decimal.
fn push_decimal(out: &mut String, n: u8)
    ensures
        final(out)@ == old(out)@ + decimal(n as nat),
    decreases n,
{
    if n >= 10 {
        push_decimal(out, n / 10);
    }
    out.append(digit_str(n % 10));
    assert(final(out)@ =~= old(out)@ + decimal(n as nat));
}

/// Appends the integer-array literal holding the bytes of `s`.
fn push_array(out: &mut String, s: &[u8])
    ensures
        final(out)@ == old(out)@ + array_text(s@),
{
    let ghost start = out@;
    out.append("'{");
    let mut i: usize = 0;
    while i < s.len()
        invariant
            i <= s@.len(),
            out@ == start + "'{"@ + byte_list(s@.subrange(0, i as int)),
        decreases s@.len() - i,
    {
        let ghost before = out@;
        if i > 0 {
            out.append(",");
        }
        push_decimal(out, s[i]);
        proof {
            let next = s@.subrange(0, i + 1);
            assert(next.drop_last() =~= s@.subrange(0, i as int));
            assert(next.last() == s@[i as int]);
            if i == 0 {
                assert(s@.subrange(0, 0) =~= Seq::<u8>::empty());
            }
        }
        i = i + 1;
        assert(out@ =~= start + "'{"@ + byte_list(s@.subrange(0, i as int)));
    }
    assert(s@.subrange(0, s@.len() as int) =~= s@);
    out.append("}'");
    assert(final(out)@ =~= old(out)@ + array_text(s@));
}

/// The statement that creates table `table` when it is missing.
pub fn create_statement(table: &str) -> (r: String)
    ensures
        r@ == create_sql(table@),
{
    let mut out = String::from_str("CREATE TABLE IF NOT EXISTS ");
    out.append(table);
    out.append(" (key integer[], value integer[], PRIMARY KEY (key));");
    out
}

/// The query for the value stored under `key` in table `table`.
pub fn select_statement(table: &str, key: &[u8]) -> (r: String)
    ensures
        r@ == select_sql(table@, key@),
{
    let mut out = String::from_str("SELECT value FROM ");
    out.append(table);
    out.append(" WHERE key = ");
    push_array(&mut out, key);
    out.append(";");
    assert(out@ =~= select_sql(table@, key@));
    out
}

/// One statement that inserts `rows` into table `table`, updating the value of a key
/// that is already there.
pub fn upsert_statement(table: &str, rows: &Vec<(Vec<u8>, Vec<u8>)>) -> (r: String)
    ensures
        r@ == upsert_sql(table@, row_views(rows@)),
{
    let mut out = String::from_str("INSERT INTO ");
    out.append(table);
    out.append(" (key, value) VALUES ");
    let ghost start = out@;
    let mut i: usize = 0;
    while i < rows.len()
        invariant
            i <= rows@.len(),
            out@ == start + row_list(row_views(rows@.subrange(0, i as int))),
        decreases rows@.len() - i,
    {
        if i > 0 {
            out.append(", ");
        }
        out.append("(");
        push_array(&mut out, rows[i].0.as_slice());
        out.append(", ");
        push_array(&mut out, rows[i].1.as_slice());
        out.append(")");
        proof {
            let next = row_views(rows@.subrange(0, i + 1));
            assert(next.drop_last() =~= row_views(rows@.subrange(0, i as int)));
            assert(next.last() == (rows@[i as int].0@, rows@[i as int].1@));
            if i == 0 {
                assert(row_views(rows@.subrange(0, 0)) =~= Seq::<(Seq<u8>, Seq<u8>)>::empty());
            }
        }
        i = i + 1;
        assert(out@ =~= start + row_list(row_views(rows@.subrange(0, i as int))));
    }
    assert(rows@.subrange(0, rows@.len() as int) =~= rows@);
    out.append(" ON CONFLICT (key) DO UPDATE SET value = EXCLUDED.value;");
    assert(out@ =~= upsert_sql(table@, row_views(rows@)));
    out
}

/// One statement that removes `keys` from table `table`.
pub fn delete_statement(table: &str, keys: &Vec<Vec<u8>>) -> (r: String)
    ensures
        r@ == delete_sql(table@, key_views(keys@)),
{
    let mut out = String::from_str("DELETE FROM ");
    out.append(table);
    out.append(" WHERE key IN (");
    let ghost start = out@;
    let mut i: usize = 0;
    while i < keys.len()
        invariant
            i <= keys@.len(),
            out@ == start + array_list(key_views(keys@.subrange(0, i as int))),
        decreases keys@.len() - i,
    {
        if i > 0 {
            out.append(", ");
        }
        push_array(&mut out, keys[i].as_slice());
        proof {
            let next = key_views(keys@.subrange(0, i + 1));
            assert(next.drop_last() =~= key_views(keys@.subrange(0, i as int)));
            assert(next.last() == keys@[i as int]@);
            if i == 0 {
                assert(key_views(keys@.subrange(0, 0)) =~= Seq::<Seq<u8>>::empty());
            }
        }
        i = i + 1;
        assert(out@ =~= start + array_list(key_views(keys@.subrange(0, i as int))));
    }
    assert(keys@.subrange(0, keys@.len() as int) =~= keys@);
    out.append(");");
    assert(out@ =~= delete_sql(table@, key_views(keys@)));
    out
}

/// The views of buffered writes.
pub open spec fn entry_views(
    entries: Seq<(Vec<u8>, Option<Vec<u8>>)>,
) -> Seq<(Seq<u8>, Option<Seq<u8>>)> {
    entries.map_values(|e: (Vec<u8>, Option<Vec<u8>>)| (e.0@, opt_bytes(e.1)))
}

/// The buffered writes that set a value, in order.
pub open spec fn live_rows(entries: Seq<(Seq<u8>, Option<Seq<u8>>)>) -> Seq<(Seq<u8>, Seq<u8>)>
    decreases entries.len(),
{
    if entries.len() == 0 {
        Seq::empty()
    } else {
        let rest = live_rows(entries.drop_last());
        match entries.last().1 {
            Some(v) => rest.push((entries.last().0, v)),
            None => rest,
        }
    }
}

/// The keys of the buffered writes that remove a key, in order.
pub open spec fn dead_keys(entries: Seq<(Seq<u8>, Option<Seq<u8>>)>) -> Seq<Seq<u8>>
    decreases entries.len(),
{
    if entries.len() == 0 {
        Seq::empty()
    } else {
        let rest = dead_keys(entries.drop_last());
        match entries.last().1 {
            Some(_) => rest,
            None => rest.push(entries.last().0),
        }
    }
}

/// The script that applies buffered writes to table `t`: one insert of every value
/// that is set, then one removal of every key that is removed, each only when it has
/// something to do.
pub open spec fn commit_sql(t: Seq<char>, entries: Seq<(Seq<u8>, Option<Seq<u8>>)>) -> Seq<char> {
    let live = live_rows(entries);
    let dead = dead_keys(entries);
    (if live.len() > 0 {
        upsert_sql(t, live)
    } else {
        Seq::empty()
    }) + (if live.len() > 0 && dead.len() > 0 {
        " "@
    } else {
        Seq::empty()
    }) + (if dead.len() > 0 {
        delete_sql(t, dead)
    } else {
        Seq::empty()
    })
}

/// The script that applies the buffered writes `entries` to table `table`.
pub fn commit_statement(table: &str, entries: &Vec<(Vec<u8>, Option<Vec<u8>>)>) -> (r: String)
    ensures
        r@ == commit_sql(table@, entry_views(entries@)),
{
    let mut live: Vec<(Vec<u8>, Vec<u8>)> = Vec::new();
    let mut dead: Vec<Vec<u8>> = Vec::new();
    let mut i: usize = 0;
    while i < entries.len()
        invariant
            i <= entries@.len(),
            row_views(live@) == live_rows(entry_views(entries@.subrange(0, i as int))),
            key_views(dead@) == dead_keys(entry_views(entries@.subrange(0, i as int))),
        decreases entries@.len() - i,
    {
        let ghost pre = entry_views(entries@.subrange(0, i as int));
        let key = copy_bytes(entries[i].0.as_slice());
        match &entries[i].1 {
            Some(v) => {
                let value = copy_bytes(v.as_slice());
                live.push((key, value));
            },
            None => {
                dead.push(key);
            },
        }
        proof {
            let next = entry_views(entries@.subrange(0, i + 1));
            assert(next.drop_last() =~= pre);
            assert(next.last() == (entries@[i as int].0@, opt_bytes(entries@[i as int].1)));
        }
        i = i + 1;
        assert(row_views(live@) =~= live_rows(entry_views(entries@.subrange(0, i as int))));
        assert(key_views(dead@) =~= dead_keys(entry_views(entries@.subrange(0, i as int))));
    }
    assert(entries@.subrange(0, entries@.len() as int) =~= entries@);
    let mut out = String::new();
    if live.len() > 0 {
        out = upsert_statement(table, &live);
    }
    if live.len() > 0 && dead.len() > 0 {
        out.append(" ");
    }
    if dead.len() > 0 {
        let removal = delete_statement(table, &dead);
        out.append(removal.as_str());
    }
    assert(out@ =~= commit_sql(table@, entry_views(entries@)));
    out
}

} // verus!
