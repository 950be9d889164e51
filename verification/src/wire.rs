//! The wire format: how todos are written as JSON text and read from JSON
//! documents.

use vstd::prelude::*;
use vstd::string::StringExecFns;
use crate::json::{boolean, content, integer, member, parse, parsed, quote, quoted, text, Json};
use crate::models::{NewTodo, Todo, TodoView, views};

verus! {

/// The character of the decimal digit `d`.
pub open spec fn digit_char(d: nat) -> char {
    if d == 0 {
        '0'
    } else if d == 1 {
        '1'
    } else if d == 2 {
        '2'
    } else if d == 3 {
        '3'
    } else if d == 4 {
        '4'
    } else if d == 5 {
        '5'
    } else if d == 6 {
        '6'
    } else if d == 7 {
        '7'
    } else if d == 8 {
        '8'
    } else {
        '9'
    }
}

/// The decimal digits of `n`, most significant first, without leading
/// zeros; `0` is the single digit `0`.
pub open spec fn digits(n: nat) -> Seq<char>
    decreases n,
{
    if n < 10 {
        seq![digit_char(n)]
    } else {
        digits(n / 10).push(digit_char(n % 10))
    }
}

/// The JSON text of the integer `n`: a minus sign where it is negative,
/// then its digits.
pub open spec fn decimal(n: int) -> Seq<char> {
    if n < 0 {
        seq!['-'] + digits((-n) as nat)
    } else {
        digits(n as nat)
    }
}

/// The JSON text of a boolean.
pub open spec fn bool_text(b: bool) -> Seq<char> {
    if b {
        "true"@
    } else {
        "false"@
    }
}

/// The JSON object of one todo, given the JSON string literal of its
/// title: the three fields in the order `id`, `title`, `done`, without
/// white space.
pub open spec fn object_text(id: int, title_literal: Seq<char>, done: bool) -> Seq<char> {
    "{\"id\":"@ + decimal(id) + ",\"title\":"@ + title_literal + ",\"done\":"@ + bool_text(done)
        + "}"@
}

/// Whether `serde_json` writes the title of every row.
pub open spec fn writable(rows: Seq<TodoView>) -> bool {
    forall|i: int| 0 <= i < rows.len() ==> quoted((#[trigger] rows[i]).title) is Some
}

/// The JSON object of a todo whose title `serde_json` writes.
pub open spec fn todo_json(todo: TodoView) -> Seq<char> {
    object_text(todo.id, quoted(todo.title).unwrap(), todo.done)
}

/// The JSON objects of `rows` in order, with a comma between neighbours.
pub open spec fn joined(rows: Seq<TodoView>) -> Seq<char>
    decreases rows.len(),
{
    if rows.len() == 0 {
        Seq::empty()
    } else if rows.len() == 1 {
        todo_json(rows[0])
    } else {
        joined(rows.drop_last()) + ","@ + todo_json(rows.last())
    }
}

/// The JSON array of `rows`, for no rows `[]`; `None` where `serde_json`
/// fails on a title.
pub open spec fn todos_json(rows: Seq<TodoView>) -> Option<Seq<char>> {
    if writable(rows) {
        Some("["@ + joined(rows) + "]"@)
    } else {
        None
    }
}

fn digit_text(d: u32) -> (text: &'static str)
    requires
        d < 10,
    ensures
        text@ == seq![digit_char(d as nat)],
{
    proof {
        reveal_strlit("0");
        reveal_strlit("1");
        reveal_strlit("2");
        reveal_strlit("3");
        reveal_strlit("4");
        reveal_strlit("5");
        reveal_strlit("6");
        reveal_strlit("7");
        reveal_strlit("8");
        reveal_strlit("9");
    }
    let text = if d == 0 {
        "0"
    } else if d == 1 {
        "1"
    } else if d == 2 {
        "2"
    } else if d == 3 {
        "3"
    } else if d == 4 {
        "4"
    } else if d == 5 {
        "5"
    } else if d == 6 {
        "6"
    } else if d == 7 {
        "7"
    } else if d == 8 {
        "8"
    } else {
        "9"
    };
    assert(text@ =~= seq![digit_char(d as nat)]);
    text
}

fn write_digits(out: &mut String, n: u32)
    ensures
        final(out)@ == old(out)@ + digits(n as nat),
    decreases n,
{
    if n >= 10 {
        write_digits(out, n / 10);
    }
    out.append(digit_text(n % 10));
    assert(out@ =~= old(out)@ + digits(n as nat));
}

/// Appends the JSON text of `n` to `out`.
pub fn write_decimal(out: &mut String, n: i32)
    ensures
        final(out)@ == old(out)@ + decimal(n as int),
{
    if n < 0 {
        proof {
            reveal_strlit("-");
        }
        out.append("-");
        let magnitude: u32 = (-(n as i64)) as u32;
        write_digits(out, magnitude);
        assert(out@ =~= old(out)@ + decimal(n as int));
    } else {
        write_digits(out, n as u32);
    }
}

/// Appends the JSON object of one todo to `out`; `title_literal` is the
/// JSON string literal of its title.
pub fn write_todo(out: &mut String, id: i32, title_literal: &str, done: bool)
    ensures
        final(out)@ == old(out)@ + object_text(id as int, title_literal@, done),
{
    out.append("{\"id\":");
    write_decimal(out, id);
    out.append(",\"title\":");
    out.append(title_literal);
    out.append(",\"done\":");
    if done {
        out.append("true");
    } else {
        out.append("false");
    }
    out.append("}");
    assert(out@ =~= old(out)@ + object_text(id as int, title_literal@, done));
}

/// Writes `rows` as a JSON array, each title through `serde_json`; `None`
/// where `serde_json` fails on a title.
pub fn encode_todos(rows: &Vec<Todo>) -> (result: Option<String>)
    ensures
        match result {
            Some(text) => todos_json(views(rows@)) == Some(text@),
            None => todos_json(views(rows@)) is None,
        },
{
    let mut out = String::from_str("[");
    let mut i: usize = 0;
    while i < rows.len()
        invariant
            i <= rows@.len(),
            writable(views(rows@).take(i as int)),
            out@ == "["@ + joined(views(rows@).take(i as int)),
        decreases rows@.len() - i,
    {
        let row = &rows[i];
        match quote(row.title.as_str()) {
            Ok(literal) => {
                if i > 0 {
                    out.append(",");
                }
                write_todo(&mut out, row.id, literal.as_str(), row.done);
                proof {
                    let done_rows = views(rows@).take(i as int + 1);
                    assert(done_rows.drop_last() =~= views(rows@).take(i as int));
                    assert(done_rows.last() == row@);
                    assert forall|k: int| 0 <= k < done_rows.len() implies quoted(
                        (#[trigger] done_rows[k]).title,
                    ) is Some by {
                        if k < i {
                            assert(done_rows[k] == views(rows@).take(i as int)[k]);
                        }
                    }
                    assert(out@ =~= "["@ + joined(done_rows));
                }
            },
            Err(_) => {
                assert(views(rows@)[i as int] == row@);
                return None;
            },
        }
        i = i + 1;
    }
    proof {
        assert(views(rows@).take(i as int) =~= views(rows@));
    }
    out.append("]");
    Some(out)
}

/// Why a request body could not be decoded.
#[derive(Debug, Clone, Copy, PartialEq, Eq, Structural)]
pub enum DecodeError {
    /// The body is not a JSON document.
    Malformed,
    /// The document has no `id` member that is an integer in the range of
    /// `i32`.
    Id,
    /// The document has no `title` member that is a string.
    Title,
    /// The document has no `done` member that is a boolean.
    Done,
}

/// The member `key` of `doc`, where `doc` is an object that has one.
pub open spec fn field(doc: Json, key: Seq<char>) -> Option<Json> {
    match doc {
        Json::Object(members) => if members.contains_key(key) {
            Some(members[key])
        } else {
            None
        },
        _ => None,
    }
}

/// The `id` that `doc` carries.
pub open spec fn id_in(doc: Json) -> Result<int, DecodeError> {
    match field(doc, "id"@) {
        Some(Json::Integer(n)) => if i32::MIN <= n <= i32::MAX {
            Ok(n)
        } else {
            Err(DecodeError::Id)
        },
        _ => Err(DecodeError::Id),
    }
}

/// The `title` that `doc` carries.
pub open spec fn title_in(doc: Json) -> Result<Seq<char>, DecodeError> {
    match field(doc, "title"@) {
        Some(Json::Text(title)) => Ok(title),
        _ => Err(DecodeError::Title),
    }
}

/// The `done` flag that `doc` carries.
pub open spec fn done_in(doc: Json) -> Result<bool, DecodeError> {
    match field(doc, "done"@) {
        Some(Json::Bool(done)) => Ok(done),
        _ => Err(DecodeError::Done),
    }
}

/// The todo that `doc` carries: all three fields are required, other
/// members are ignored, and the first field that fails, in the order `id`,
/// `title`, `done`, names the error.
pub open spec fn todo_in(doc: Json) -> Result<TodoView, DecodeError> {
    match id_in(doc) {
        Err(e) => Err(e),
        Ok(id) => match title_in(doc) {
            Err(e) => Err(e),
            Ok(title) => match done_in(doc) {
                Err(e) => Err(e),
                Ok(done) => Ok(TodoView { id, title, done }),
            },
        },
    }
}

/// What the bytes `body` decode to as a creation payload: the title.
pub open spec fn decoded_new_todo(body: Seq<u8>) -> Result<Seq<char>, DecodeError> {
    match parsed(body) {
        None => Err(DecodeError::Malformed),
        Some(doc) => title_in(doc),
    }
}

/// What the bytes `body` decode to as a full todo.
pub open spec fn decoded_todo(body: Seq<u8>) -> Result<TodoView, DecodeError> {
    match parsed(body) {
        None => Err(DecodeError::Malformed),
        Some(doc) => todo_in(doc),
    }
}

/// What the bytes `body` decode to as the id of a todo.
pub open spec fn decoded_id(body: Seq<u8>) -> Result<int, DecodeError> {
    match parsed(body) {
        None => Err(DecodeError::Malformed),
        Some(doc) => id_in(doc),
    }
}

/// Reads the `id` member of a parsed document.
pub fn id_from(doc: &serde_json::Value) -> (result: Result<i32, DecodeError>)
    ensures
        match result {
            Ok(id) => id_in(content(*doc)) == Ok::<int, DecodeError>(id as int),
            Err(e) => id_in(content(*doc)) == Err::<int, DecodeError>(e),
        },
{
    match member(doc, "id") {
        None => Err(DecodeError::Id),
        Some(found) => match integer(found) {
            None => Err(DecodeError::Id),
            Some(n) => if i32::MIN as i64 <= n && n <= i32::MAX as i64 {
                Ok(n as i32)
            } else {
                Err(DecodeError::Id)
            },
        },
    }
}

/// Reads the `title` member of a parsed document.
pub fn title_from(doc: &serde_json::Value) -> (result: Result<String, DecodeError>)
    ensures
        match result {
            Ok(title) => title_in(content(*doc)) == Ok::<Seq<char>, DecodeError>(title@),
            Err(e) => title_in(content(*doc)) == Err::<Seq<char>, DecodeError>(e),
        },
{
    match member(doc, "title") {
        None => Err(DecodeError::Title),
        Some(found) => match text(found) {
            None => Err(DecodeError::Title),
            Some(title) => Ok(String::from_str(title)),
        },
    }
}

/// Reads the `done` member of a parsed document.
pub fn done_from(doc: &serde_json::Value) -> (result: Result<bool, DecodeError>)
    ensures
        match result {
            Ok(done) => done_in(content(*doc)) == Ok::<bool, DecodeError>(done),
            Err(e) => done_in(content(*doc)) == Err::<bool, DecodeError>(e),
        },
{
    match member(doc, "done") {
        None => Err(DecodeError::Done),
        Some(found) => match boolean(found) {
            None => Err(DecodeError::Done),
            Some(done) => Ok(done),
        },
    }
}

/// Reads a full todo from a parsed document.
pub fn todo_from(doc: &serde_json::Value) -> (result: Result<Todo, DecodeError>)
    ensures
        match result {
            Ok(todo) => todo_in(content(*doc)) == Ok::<TodoView, DecodeError>(todo@),
            Err(e) => todo_in(content(*doc)) == Err::<TodoView, DecodeError>(e),
        },
{
    let id = match id_from(doc) {
        Ok(id) => id,
        Err(e) => {
            return Err(e);
        },
    };
    let title = match title_from(doc) {
        Ok(title) => title,
        Err(e) => {
            return Err(e);
        },
    };
    let done = match done_from(doc) {
        Ok(done) => done,
        Err(e) => {
            return Err(e);
        },
    };
    Ok(Todo { id, title, done })
}

/// Decodes the body of a creation request: a JSON object with a string
/// `title`. Other members are ignored.
pub fn decode_new_todo(body: &[u8]) -> (result: Result<NewTodo, DecodeError>)
    ensures
        match result {
            Ok(new_todo) => decoded_new_todo(body@) == Ok::<Seq<char>, DecodeError>(new_todo@),
            Err(e) => decoded_new_todo(body@) == Err::<Seq<char>, DecodeError>(e),
        },
{
    match parse(body) {
        Err(_) => Err(DecodeError::Malformed),
        Ok(doc) => match title_from(&doc) {
            Ok(title) => Ok(NewTodo { title }),
            Err(e) => Err(e),
        },
    }
}

/// Decodes the body of an update request: a JSON object with an integer
/// `id`, a string `title` and a boolean `done`. Other members are ignored.
pub fn decode_todo(body: &[u8]) -> (result: Result<Todo, DecodeError>)
    ensures
        match result {
            Ok(todo) => decoded_todo(body@) == Ok::<TodoView, DecodeError>(todo@),
            Err(e) => decoded_todo(body@) == Err::<TodoView, DecodeError>(e),
        },
{
    match parse(body) {
        Err(_) => Err(DecodeError::Malformed),
        Ok(doc) => todo_from(&doc),
    }
}

/// Decodes the body of a delete request: a JSON object with an integer
/// `id`. Other members are ignored, whatever they hold.
pub fn decode_id(body: &[u8]) -> (result: Result<i32, DecodeError>)
    ensures
        match result {
            Ok(id) => decoded_id(body@) == Ok::<int, DecodeError>(id as int),
            Err(e) => decoded_id(body@) == Err::<int, DecodeError>(e),
        },
{
    match parse(body) {
        Err(_) => Err(DecodeError::Malformed),
        Ok(doc) => id_from(&doc),
    }
}

} // verus!
