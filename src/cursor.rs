//! Server-side cursors: declared on the first fetch, then read page by page.
use vstd::prelude::*;

use crate::text::{decimal, push_decimal};
use crate::transaction::{ready_check, Statement, Transaction, TransactionError};

verus! {

/// Where a cursor stands. The parameters are held until the `DECLARE` that
/// binds them is handed out, which happens once.
pub enum CursorState<P> {
    /// Not yet declared on the server.
    Fresh(P),
    /// Declared on the server.
    Declared,
    /// Closed by `close`.
    Closed,
}

/// The abstract state of a cursor.
pub struct CursorView<P> {
    pub cursor_name: Seq<char>,
    pub querystring: Seq<char>,
    pub fetch_number: nat,
    pub scroll: bool,
    pub prepared: bool,
    pub state: CursorState<P>,
}

/// A named server-side cursor over one query, inside one transaction.
pub struct Cursor<P> {
    cursor_name: String,
    querystring: String,
    fetch_number: usize,
    scroll: bool,
    prepared: bool,
    state: CursorState<P>,
}

/// What one `fetch` asks the caller to run, in this order.
pub struct CursorFetch<P> {
    /// The `DECLARE`, on the first fetch only.
    pub declare: Option<Statement<P>>,
    /// The `FETCH` whose rows are the page; an empty page means the end.
    pub fetch: String,
}

pub open spec fn declare_text(name: Seq<char>, scroll: bool, querystring: Seq<char>) -> Seq<char> {
    "DECLARE "@ + name + (if scroll {
        " SCROLL"@
    } else {
        Seq::empty()
    }) + " CURSOR FOR "@ + querystring
}

pub open spec fn fetch_text(fetch_number: nat, name: Seq<char>) -> Seq<char> {
    "FETCH "@ + decimal(fetch_number) + " FROM "@ + name
}

pub open spec fn close_text(name: Seq<char>) -> Seq<char> {
    "CLOSE "@ + name
}

impl<P> View for Cursor<P> {
    type V = CursorView<P>;

    closed spec fn view(&self) -> CursorView<P> {
        CursorView {
            cursor_name: self.cursor_name@,
            querystring: self.querystring@,
            fetch_number: self.fetch_number as nat,
            scroll: self.scroll,
            prepared: self.prepared,
            state: self.state,
        }
    }
}

impl<P> Cursor<P> {
    /// A cursor that is not yet declared on the server.
    pub fn new(
        querystring: String,
        parameters: P,
        cursor_name: String,
        scroll: bool,
        fetch_number: usize,
        prepared: bool,
    ) -> (r: Self)
        ensures
            r@ == (CursorView {
                cursor_name: cursor_name@,
                querystring: querystring@,
                fetch_number: fetch_number as nat,
                scroll,
                prepared,
                state: CursorState::Fresh(parameters),
            }),
    {
        Cursor {
            cursor_name,
            querystring,
            fetch_number,
            scroll,
            prepared,
            state: CursorState::Fresh(parameters),
        }
    }

    pub fn cursor_name(&self) -> (r: &String)
        ensures
            r@ == self@.cursor_name,
    {
        &self.cursor_name
    }

    pub fn fetch_number(&self) -> (r: usize)
        ensures
            r == self@.fetch_number,
    {
        self.fetch_number
    }

    /// Whether the `DECLARE` has been handed out and the cursor is not closed.
    pub fn is_declared(&self) -> (r: bool)
        ensures
            r == (self@.state is Declared),
    {
        match self.state {
            CursorState::Declared => true,
            _ => false,
        }
    }

    pub fn is_closed(&self) -> (r: bool)
        ensures
            r == (self@.state is Closed),
    {
        match self.state {
            CursorState::Closed => true,
            _ => false,
        }
    }

    fn declare_command(&self) -> (r: String)
        ensures
            r@ == declare_text(self@.cursor_name, self@.scroll, self@.querystring),
    {
        let mut command = String::from_str("DECLARE ");
        command.append(self.cursor_name.as_str());
        if self.scroll {
            command.append(" SCROLL");
        }
        command.append(" CURSOR FOR ");
        command.append(self.querystring.as_str());
        command
    }

    fn fetch_command(&self) -> (r: String)
        ensures
            r@ == fetch_text(self@.fetch_number, self@.cursor_name),
    {
        let mut command = String::from_str("FETCH ");
        push_decimal(&mut command, self.fetch_number);
        command.append(" FROM ");
        command.append(self.cursor_name.as_str());
        command
    }

    /// The next page: a `FETCH` of `fetch_number` rows, preceded on the first
    /// call by the `DECLARE` that binds the parameters. Fails as a query of
    /// `transaction` would.
    pub fn fetch<E>(&mut self, transaction: &Transaction) -> (r: Result<
        CursorFetch<P>,
        TransactionError<E>,
    >)
        ensures
            match ready_check::<E>(transaction@.state) {
                Err(e) => r == Err::<CursorFetch<P>, TransactionError<E>>(e) && final(self)@
                    == old(self)@,
                Ok(_) => r matches Ok(f) && f.fetch@ == fetch_text(
                    old(self)@.fetch_number,
                    old(self)@.cursor_name,
                ) && match old(self)@.state {
                    CursorState::Fresh(parameters) => f.declare matches Some(s) && s.querystring@
                        == declare_text(
                        old(self)@.cursor_name,
                        old(self)@.scroll,
                        old(self)@.querystring,
                    ) && s.parameters == parameters && s.prepared == old(self)@.prepared
                        && final(self)@ == (CursorView {
                        state: CursorState::Declared,
                        ..old(self)@
                    }),
                    _ => f.declare is None && final(self)@ == old(self)@,
                },
            },
    {
        transaction.check_is_transaction_ready()?;
        let fetch = self.fetch_command();
        let mut state = CursorState::Declared;
        std::mem::swap(&mut state, &mut self.state);
        match state {
            CursorState::Fresh(parameters) => {
                let querystring = self.declare_command();
                let declare = Statement { querystring, parameters, prepared: self.prepared };
                Ok(CursorFetch { declare: Some(declare), fetch })
            },
            other => {
                self.state = other;
                Ok(CursorFetch { declare: None, fetch })
            },
        }
    }

    /// Closes the cursor: `CLOSE name` if it was declared, nothing if it was
    /// never declared. A closed cursor closes again without error or command.
    pub fn close<E>(&mut self, transaction: &Transaction) -> (r: Result<
        Option<String>,
        TransactionError<E>,
    >)
        ensures
            match old(self)@.state {
                CursorState::Closed => r == Ok::<Option<String>, TransactionError<E>>(None)
                    && final(self)@ == old(self)@,
                _ => match ready_check::<E>(transaction@.state) {
                    Err(e) => r == Err::<Option<String>, TransactionError<E>>(e) && final(self)@
                        == old(self)@,
                    Ok(_) => final(self)@ == (CursorView {
                        state: CursorState::Closed,
                        ..old(self)@
                    }) && if old(self)@.state is Declared {
                        r matches Ok(Some(command)) && command@ == close_text(old(self)@.cursor_name)
                    } else {
                        r == Ok::<Option<String>, TransactionError<E>>(None)
                    },
                },
            },
    {
        let was_declared = match self.state {
            CursorState::Closed => {
                return Ok(None);
            },
            CursorState::Declared => true,
            CursorState::Fresh(_) => false,
        };
        transaction.check_is_transaction_ready()?;
        self.state = CursorState::Closed;
        if was_declared {
            let mut command = String::from_str("CLOSE ");
            command.append(self.cursor_name.as_str());
            Ok(Some(command))
        } else {
            Ok(None)
        }
    }
}

} // verus!
