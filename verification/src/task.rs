//! Tasks and their ids.

use crate::json::{Document, Json};
use vstd::prelude::*;

verus! {

/// The key under which a request document holds the text to send.
pub open spec fn input_key() -> Seq<char> {
    "input"@
}

/// The text to send that a request document holds: the characters of the
/// string under `input_key()`, where the document is an object that has one.
pub open spec fn input_of(document: Json) -> Option<Seq<char>> {
    match document.member(input_key()) {
        Some(member) => member.text(),
        None => None,
    }
}

/// The text to send that a request document holds, if it holds one.
pub fn input_text(document: &Document) -> (r: Option<String>)
    ensures
        match r {
            Some(text) => input_of(document@) == Some(text@),
            None => input_of(document@) is None,
        },
{
    match document.member("input") {
        Some(member) => member.as_text(),
        None => None,
    }
}

/// Hands out task ids in rising order.
#[derive(Debug)]
pub struct TaskIdGenerator {
    next_id: usize,
}

impl View for TaskIdGenerator {
    type V = nat;

    /// The id that will be handed out next.
    closed spec fn view(&self) -> nat {
        self.next_id as nat
    }
}

impl TaskIdGenerator {
    /// The id that will be handed out next, without handing it out.
    pub fn peek(&self) -> (r: usize)
        ensures
            r == self@,
    {
        self.next_id
    }

    /// Hands out the next id. The ids below `usize::MAX` are handed out in
    /// order, each once; after the last of them the generator returns `None`.
    pub fn next(&mut self) -> (r: Option<usize>)
        ensures
            old(self)@ < usize::MAX ==> r == Some(old(self)@ as usize) && final(self)@ == old(
                self,
            )@ + 1,
            old(self)@ >= usize::MAX ==> r is None && final(self)@ == old(self)@,
    {
        if self.next_id < usize::MAX {
            let id = self.next_id;
            self.next_id = id + 1;
            Some(id)
        } else {
            None
        }
    }
}

/// A generator of task ids that starts at 0.
pub fn task_id_generator() -> (r: TaskIdGenerator)
    ensures
        r@ == 0,
{
    TaskIdGenerator { next_id: 0 }
}

/// One unit of work: a request document with its id and the attempts it has
/// left.
#[derive(Debug, Clone)]
pub struct APIRequest {
    pub task_id: usize,
    pub request_json: Document,
    pub attempts_left: usize,
    pub metadata: Option<Document>,
    pub result: Vec<Document>,
    pub original_input: Document,
}

impl APIRequest {
    /// The text to send, where the request document holds one.
    pub open spec fn input(&self) -> Option<Seq<char>> {
        input_of(self.request_json@)
    }

    /// The same task, but for the number of attempts that it has left.
    pub open spec fn with_attempts_left(self, attempts_left: usize) -> APIRequest {
        APIRequest { attempts_left, ..self }
    }
}

} // verus!
