use vstd::prelude::*;

use crate::schema::Schema;
use crate::types::{BindError, FileEntry, FileFormat, StreamParams};

verus! {

/// The isolation scope of one query: all table registrations made on its
/// behalf carry its identifier and are torn down when the query ends.
#[derive(Clone, Copy, PartialEq, Eq, Structural, Debug)]
pub enum SessionKind {
    Storage,
    Wal,
}

/// A session: its identifier and the kind of data it queries.
#[derive(Clone, Debug)]
pub struct Session {
    pub id: String,
    pub kind: SessionKind,
}

/// One registered table: the resolved file set and schema of one stream,
/// bound under a table name inside one session.
#[derive(Clone, Debug)]
pub struct TableBinding {
    pub session_id: String,
    pub table_name: String,
    pub stream: StreamParams,
    pub schema: Schema,
    pub files: Vec<FileEntry>,
    pub format: FileFormat,
}

/// What a successful registration hands back: the shape of the bound
/// table.  Binding an empty file set yields an empty table rather than
/// an error, so a query over no data evaluates to a no-data result.
#[derive(Clone, Copy, PartialEq, Eq, Structural, Debug)]
pub struct TableHandle {
    pub file_count: usize,
    pub field_count: usize,
}

/// The binding visible under `(session_id, table_name)`: the most recent
/// registration with both names, if any.  A session observes bindings
/// carrying its own identifier and no others.
pub open spec fn spec_lookup(
    s: Seq<TableBinding>,
    session_id: Seq<char>,
    table_name: Seq<char>,
) -> Option<TableBinding>
    decreases s.len(),
{
    if s.len() == 0 {
        None
    } else if s.last().session_id@ == session_id && s.last().table_name@ == table_name {
        Some(s.last())
    } else {
        spec_lookup(s.drop_last(), session_id, table_name)
    }
}

/// The bindings that survive clearing one session: every binding of the
/// other sessions, in order.
pub open spec fn spec_cleared(s: Seq<TableBinding>, session_id: Seq<char>) -> Seq<TableBinding>
    decreases s.len(),
{
    if s.len() == 0 {
        Seq::empty()
    } else {
        let rest = spec_cleared(s.drop_last(), session_id);
        if s.last().session_id@ == session_id {
            rest
        } else {
            rest.push(s.last())
        }
    }
}

/// The table registrations of every live session, in registration order.
pub struct SessionRegistry {
    pub entries: Vec<TableBinding>,
}

impl SessionRegistry {
    pub fn new() -> (r: SessionRegistry)
        ensures
            r.entries@ == Seq::<TableBinding>::empty(),
    {
        SessionRegistry { entries: Vec::new() }
    }

    /// Register the resolved file set and schema as a table named
    /// `table_name`, scoped to `session`.  Fails exactly when the session
    /// already holds a table under that name; no other session's view
    /// changes either way.
    pub fn bind(
        &mut self,
        session: Session,
        stream: StreamParams,
        schema: Schema,
        files: Vec<FileEntry>,
        table_name: String,
        format: FileFormat,
    ) -> (r: Result<TableHandle, BindError>)
        ensures
            r is Ok <==> spec_lookup(old(self).entries@, session.id@, table_name@) is None,
            r matches Ok(h) ==> {
                &&& h.file_count == files@.len()
                &&& h.field_count == schema.fields@.len()
                &&& final(self).entries@ == old(self).entries@.push(
                    TableBinding {
                        session_id: session.id,
                        table_name: table_name,
                        stream: stream,
                        schema: schema,
                        files: files,
                        format: format,
                    },
                )
                &&& spec_lookup(final(self).entries@, session.id@, table_name@) matches Some(b)
                    && b.session_id@ == session.id@ && b.table_name@ == table_name@
                    && b.schema == schema && b.files == files
            },
            r matches Err(e) ==> final(self).entries@ == old(self).entries@ && e.table_name@
                == table_name@,
            forall|sid: Seq<char>, t: Seq<char>|
                !(sid == session.id@ && t == table_name@) ==> #[trigger] spec_lookup(
                    final(self).entries@,
                    sid,
                    t,
                ) == spec_lookup(old(self).entries@, sid, t),
    {
        let existing = lookup_index(&self.entries, &session.id, &table_name);
        match existing {
            Some(_) => Err(BindError { table_name }),
            None => {
                let file_count = files.len();
                let field_count = schema.fields.len();
                let binding = TableBinding {
                    session_id: session.id,
                    table_name,
                    stream,
                    schema,
                    files,
                    format,
                };
                self.entries.push(binding);
                proof {
                    assert(self.entries@.drop_last() =~= old(self).entries@);
                    assert forall|sid: Seq<char>, t: Seq<char>|
                        !(sid == binding.session_id@ && t == binding.table_name@)
                            implies #[trigger] spec_lookup(self.entries@, sid, t) == spec_lookup(
                        old(self).entries@,
                        sid,
                        t,
                    ) by {
                        assert(self.entries@.last() == binding);
                    }
                }
                Ok(TableHandle { file_count, field_count })
            },
        }
    }

    /// What `(session_id, table_name)` currently observes: a reference to
    /// the most recent binding under both names, if any.
    pub fn lookup(&self, session_id: &String, table_name: &String) -> (r: Option<&TableBinding>)
        ensures
            match r {
                Some(b) => spec_lookup(self.entries@, session_id@, table_name@) == Some(*b),
                None => spec_lookup(self.entries@, session_id@, table_name@) is None,
            },
    {
        match lookup_index(&self.entries, session_id, table_name) {
            Some(i) => Some(&self.entries[i]),
            None => None,
        }
    }

    /// Tear down one session: afterwards it observes no binding at all,
    /// and every other session observes exactly what it did before.
    #[verifier::loop_isolation(false)]
    pub fn clear(&mut self, session_id: &String)
        ensures
            final(self).entries@ == spec_cleared(old(self).entries@, session_id@),
            forall|t: Seq<char>| #[trigger] spec_lookup(final(self).entries@, session_id@, t)
                is None,
            forall|sid: Seq<char>, t: Seq<char>|
                sid != session_id@ ==> #[trigger] spec_lookup(final(self).entries@, sid, t)
                    == spec_lookup(old(self).entries@, sid, t),
    {
        let ghost orig: Seq<TableBinding> = self.entries@;
        let mut rest: Vec<TableBinding> = Vec::new();
        core::mem::swap(&mut rest, &mut self.entries);
        let ghost mut done: Seq<TableBinding> = Seq::empty();
        while rest.len() > 0
            invariant
                orig == done + rest@,
                self.entries@ == spec_cleared(done, session_id@),
            decreases rest@.len(),
        {
            let ghost before: Seq<TableBinding> = rest@;
            let b = rest.remove(0);
            let keep = !(b.session_id == *session_id);
            proof {
                assert(done.push(b).drop_last() =~= done);
                assert(done.push(b) + rest@ =~= done + before);
                done = done.push(b);
            }
            if keep {
                self.entries.push(b);
            }
        }
        proof {
            assert(done =~= orig);
            lemma_cleared_invisible(orig, session_id@);
        }
    }
}

/// Index of the most recent binding under `(session_id, table_name)`.
#[verifier::loop_isolation(false)]
fn lookup_index(entries: &Vec<TableBinding>, session_id: &String, table_name: &String) -> (r:
    Option<usize>)
    ensures
        match r {
            Some(i) => 0 <= i < entries@.len() && spec_lookup(entries@, session_id@, table_name@)
                == Some(entries@[i as int]),
            None => spec_lookup(entries@, session_id@, table_name@) is None,
        },
{
    let mut j: usize = entries.len();
    proof {
        assert(entries@.take(entries@.len() as int) =~= entries@);
    }
    while j > 0
        invariant
            j <= entries.len(),
            spec_lookup(entries@, session_id@, table_name@) == spec_lookup(
                entries@.take(j as int),
                session_id@,
                table_name@,
            ),
        decreases j,
    {
        j = j - 1;
        proof {
            assert(entries@.take(j + 1).drop_last() =~= entries@.take(j as int));
            assert(entries@.take(j + 1).last() == entries@[j as int]);
        }
        if entries[j].session_id == *session_id && entries[j].table_name == *table_name {
            return Some(j);
        }
    }
    proof {
        assert(entries@.take(0) =~= Seq::<TableBinding>::empty());
    }
    None
}

/// After a session is cleared, no lookup under its identifier finds a
/// binding, and lookups under any other identifier are undisturbed.
pub proof fn lemma_cleared_invisible(s: Seq<TableBinding>, session_id: Seq<char>)
    ensures
        forall|t: Seq<char>| #[trigger] spec_lookup(spec_cleared(s, session_id), session_id, t)
            is None,
        forall|sid: Seq<char>, t: Seq<char>|
            sid != session_id ==> #[trigger] spec_lookup(spec_cleared(s, session_id), sid, t)
                == spec_lookup(s, sid, t),
    decreases s.len(),
{
    let cl = spec_cleared(s, session_id);
    if s.len() > 0 {
        lemma_cleared_invisible(s.drop_last(), session_id);
        let rest = spec_cleared(s.drop_last(), session_id);
        if s.last().session_id@ != session_id {
            assert(cl == rest.push(s.last()));
            assert(cl.drop_last() =~= rest);
        }
        assert forall|t: Seq<char>| #[trigger] spec_lookup(cl, session_id, t) is None by {
            assert(spec_lookup(rest, session_id, t) is None);
            if s.last().session_id@ != session_id {
                assert(spec_lookup(cl, session_id, t) == spec_lookup(rest, session_id, t));
            }
        }
        assert forall|sid: Seq<char>, t: Seq<char>| sid != session_id implies #[trigger]
        spec_lookup(cl, sid, t) == spec_lookup(s, sid, t) by {
            if s.last().session_id@ == sid && s.last().table_name@ == t {
                assert(spec_lookup(s, sid, t) == Some(s.last()));
                assert(spec_lookup(cl, sid, t) == Some(s.last()));
            } else {
                assert(spec_lookup(s, sid, t) == spec_lookup(s.drop_last(), sid, t));
                if s.last().session_id@ != session_id {
                    assert(spec_lookup(cl, sid, t) == spec_lookup(rest, sid, t));
                }
                assert(spec_lookup(rest, sid, t) == spec_lookup(s.drop_last(), sid, t));
            }
        }
    }
}

/// Law: binding a table on behalf of one session never changes what any
/// other session observes, whatever table name the other looks under.
pub proof fn lemma_session_isolation(
    s: Seq<TableBinding>,
    b: TableBinding,
    sid: Seq<char>,
    t: Seq<char>,
)
    requires
        sid != b.session_id@,
    ensures
        spec_lookup(s.push(b), sid, t) == spec_lookup(s, sid, t),
{
    assert(s.push(b).drop_last() =~= s);
}

/// Law: two registrations under the same session identifier but distinct
/// table names do not disturb each other: afterwards each table name
/// still observes exactly its own binding.
pub proof fn lemma_same_session_distinct_tables(
    s: Seq<TableBinding>,
    b1: TableBinding,
    b2: TableBinding,
)
    requires
        b1.session_id@ == b2.session_id@,
        b1.table_name@ != b2.table_name@,
    ensures
        spec_lookup(s.push(b1).push(b2), b1.session_id@, b1.table_name@) == Some(b1),
        spec_lookup(s.push(b1).push(b2), b2.session_id@, b2.table_name@) == Some(b2),
{
    let s2 = s.push(b1).push(b2);
    assert(s2.drop_last() =~= s.push(b1));
    assert(s2.last() == b2);
    assert(s.push(b1).last() == b1);
    assert(spec_lookup(s.push(b1), b1.session_id@, b1.table_name@) == Some(b1));
    assert(spec_lookup(s2, b1.session_id@, b1.table_name@) == spec_lookup(
        s.push(b1),
        b1.session_id@,
        b1.table_name@,
    ));
}

} // verus!
