//! SQL statements: their text, and the values that go with it.

use crate::time::Timestamp;
use vstd::prelude::*;

verus! {

/// A value that goes with a statement's text, in place of `$1`, `$2` and so on.
#[derive(Debug)]
pub enum Param {
    Text(String),
    Time(Timestamp),
}

/// What a parameter stands for.
pub enum ParamView {
    Text(Seq<char>),
    Time(Timestamp),
}

impl View for Param {
    type V = ParamView;

    open spec fn view(&self) -> ParamView {
        match self {
            Param::Text(text) => ParamView::Text(text@),
            Param::Time(time) => ParamView::Time(*time),
        }
    }
}

/// A statement for the database.
#[derive(Debug)]
pub struct Statement {
    pub text: String,
    pub params: Vec<Param>,
}

/// What a statement stands for.
#[verifier::ext_equal]
pub struct StatementView {
    pub text: Seq<char>,
    pub params: Seq<ParamView>,
}

impl View for Statement {
    type V = StatementView;

    open spec fn view(&self) -> StatementView {
        StatementView {
            text: self.text@,
            params: self.params@.map_values(|param: Param| param@),
        }
    }
}

}
