//! Queries: their kinds, their parameters and what they yield.

use vstd::prelude::*;

verus! {

/// The continuation that stands for "nobody waits for the result".
pub const NO_CONTINUATION: i32 = -2;

/// What a query is run for.
#[derive(Clone, Copy, Debug, PartialEq, Eq, Structural)]
pub enum QueryType {
    /// Nothing is handed back.
    Run,
    /// The number of rows affected and the last inserted id are handed back.
    Execute,
    /// At most one row is handed back.
    FetchOne,
    /// All rows are handed back, in order.
    FetchAll,
}

/// The request that the driver is given for a query.
#[derive(Clone, Copy, Debug, PartialEq, Eq, Structural)]
pub enum DriverCall {
    Execute,
    FetchOptional,
    FetchAll,
}

impl QueryType {
    /// The request that the driver is given for a query of this kind.
    pub open spec fn call(self) -> DriverCall {
        match self {
            QueryType::Run | QueryType::Execute => DriverCall::Execute,
            QueryType::FetchOne => DriverCall::FetchOptional,
            QueryType::FetchAll => DriverCall::FetchAll,
        }
    }

    /// The request that the driver is given for a query of this kind.
    pub fn driver_call(self) -> (call: DriverCall)
        ensures
            call == self.call(),
    {
        match self {
            QueryType::Run => DriverCall::Execute,
            QueryType::Execute => DriverCall::Execute,
            QueryType::FetchOne => DriverCall::FetchOptional,
            QueryType::FetchAll => DriverCall::FetchAll,
        }
    }
}

/// A parameter bound to a query.
#[derive(Debug, Clone, PartialEq, Eq)]
pub enum Param {
    Number(i32),
    String(Vec<u8>),
    Boolean(bool),
}

/// A parameter as a plain value.
pub enum ParamView {
    Number(i32),
    String(Seq<u8>),
    Boolean(bool),
}

impl View for Param {
    type V = ParamView;

    open spec fn view(&self) -> ParamView {
        match self {
            Param::Number(n) => ParamView::Number(*n),
            Param::String(s) => ParamView::String(s@),
            Param::Boolean(b) => ParamView::Boolean(*b),
        }
    }
}

/// A value that the host offers as a parameter.
#[derive(Debug, Clone, PartialEq, Eq)]
pub enum HostValue {
    Number(i32),
    String(Vec<u8>),
    Boolean(bool),
    /// A value of a type that cannot be bound; the host's name of the type.
    Unsupported(String),
}

impl HostValue {
    /// Whether the value can be bound to a query.
    pub open spec fn is_supported(self) -> bool {
        !(self is Unsupported)
    }

    /// The parameter that a value that can be bound becomes.
    pub open spec fn param(self) -> ParamView {
        match self {
            HostValue::Number(n) => ParamView::Number(n),
            HostValue::String(s) => ParamView::String(s@),
            HostValue::Boolean(b) => ParamView::Boolean(b),
            HostValue::Unsupported(_) => arbitrary(),
        }
    }
}

/// The first value that cannot be bound as a parameter.
#[derive(Debug, Clone, PartialEq, Eq)]
pub struct ParamError {
    /// The value's position among the values offered, counted from 1.
    pub index: usize,
    /// The host's name of the value's type.
    pub kind_name: String,
}

/// The number of values, from the first on, that can all be bound.
pub open spec fn supported_prefix(values: Seq<HostValue>) -> int
    decreases values.len(),
{
    if values.len() == 0 || !values[0].is_supported() {
        0
    } else {
        1 + supported_prefix(values.subrange(1, values.len() as int))
    }
}

/// `supported_prefix` is the offset of the first value that cannot be bound,
/// and the number of values where all can.
pub proof fn lemma_supported_prefix(values: Seq<HostValue>)
    ensures
        0 <= supported_prefix(values) <= values.len(),
        forall|k: int| 0 <= k < supported_prefix(values) ==> values[k].is_supported(),
        supported_prefix(values) < values.len() ==> !values[supported_prefix(
            values,
        )].is_supported(),
    decreases values.len(),
{
    if values.len() != 0 && values[0].is_supported() {
        let rest = values.subrange(1, values.len() as int);
        lemma_supported_prefix(rest);
        assert forall|k: int| 0 <= k < supported_prefix(values) implies values[k].is_supported() by {
            if k > 0 {
                assert(rest[k - 1] == values[k]);
            }
        }
        if supported_prefix(values) < values.len() {
            assert(rest[supported_prefix(rest)] == values[supported_prefix(values)]);
        }
    }
}

/// An offset before which all values can be bound, and at which none can, is
/// `supported_prefix`.
pub proof fn lemma_supported_prefix_unique(values: Seq<HostValue>, at: int)
    requires
        0 <= at <= values.len(),
        forall|k: int| 0 <= k < at ==> values[k].is_supported(),
        at < values.len() ==> !values[at].is_supported(),
    ensures
        supported_prefix(values) == at,
{
    lemma_supported_prefix(values);
    let p = supported_prefix(values);
    if p < at {
        assert(!values[p].is_supported());
    } else if at < p {
        assert(values[at].is_supported());
    }
}

/// What the host may say of a query besides its text.
#[derive(Debug, Clone, PartialEq, Eq)]
pub struct QueryOptions {
    pub params: Option<Vec<HostValue>>,
    pub callback: Option<i32>,
    pub raw: Option<bool>,
}

/// What the driver is handed for a query.
#[derive(Debug, Clone, PartialEq, Eq)]
pub enum Statement {
    /// The text is sent as it is, with no parameters.
    Raw { text: String },
    /// The text is prepared and the parameters are bound to it in order.
    Prepared { text: String, params: Vec<Param> },
}

/// A query and the continuation that receives its result.
#[derive(Debug, Clone, PartialEq, Eq)]
pub struct Query {
    pub query: String,
    pub kind: QueryType,
    pub params: Vec<Param>,
    pub callback: i32,
    pub raw: bool,
    pub sync: bool,
}

fn copy_bytes(bytes: &Vec<u8>) -> (copy: Vec<u8>)
    ensures
        copy@ == bytes@,
{
    let mut copy: Vec<u8> = Vec::new();
    let mut i: usize = 0;
    while i < bytes.len()
        invariant
            i <= bytes@.len(),
            copy@ == bytes@.subrange(0, i as int),
        decreases bytes@.len() - i,
    {
        copy.push(bytes[i]);
        proof {
            assert(copy@ =~= bytes@.subrange(0, i + 1));
        }
        i += 1;
    }
    proof {
        assert(copy@ =~= bytes@);
    }
    copy
}

impl Query {
    /// The parameters as plain values.
    pub open spec fn params_view(self) -> Seq<ParamView> {
        Seq::new(self.params@.len(), |i: int| self.params@[i]@)
    }

    /// A query with no parameters, for which nobody waits, sent prepared and
    /// asynchronously.
    pub fn new(query: String, kind: QueryType) -> (q: Query)
        ensures
            q.query == query,
            q.kind == kind,
            q.params@.len() == 0,
            q.callback == NO_CONTINUATION,
            !q.raw,
            !q.sync,
    {
        Query { query, kind, params: Vec::new(), callback: NO_CONTINUATION, raw: false, sync: false }
    }

    /// Binds the values offered, in order, up to the first that cannot be
    /// bound. That one is an error; the values before it stay bound.
    pub fn bind_params(&mut self, values: &Vec<HostValue>) -> (res: Result<(), ParamError>)
        ensures
            final(self).query == old(self).query,
            final(self).kind == old(self).kind,
            final(self).callback == old(self).callback,
            final(self).raw == old(self).raw,
            final(self).sync == old(self).sync,
            final(self).params_view() == old(self).params_view() + Seq::new(
                supported_prefix(values@) as nat,
                |i: int| values@[i].param(),
            ),
            res is Ok <==> supported_prefix(values@) == values@.len(),
            res matches Err(e) ==> e.index == supported_prefix(values@) + 1 && values@[e.index
                - 1] == HostValue::Unsupported(e.kind_name),
    {
        let mut i: usize = 0;
        while i < values.len()
            invariant
                i <= values@.len(),
                forall|k: int| 0 <= k < i ==> values@[k].is_supported(),
                self.query == old(self).query,
                self.kind == old(self).kind,
                self.callback == old(self).callback,
                self.raw == old(self).raw,
                self.sync == old(self).sync,
                self.params_view() == old(self).params_view() + Seq::new(
                    i as nat,
                    |k: int| values@[k].param(),
                ),
            decreases values@.len() - i,
        {
            let ghost before = self.params_view();
            let param = match &values[i] {
                HostValue::Number(n) => Param::Number(*n),
                HostValue::String(s) => Param::String(copy_bytes(s)),
                HostValue::Boolean(b) => Param::Boolean(*b),
                HostValue::Unsupported(kind_name) => {
                    proof {
                        lemma_supported_prefix_unique(values@, i as int);
                    }
                    return Err(ParamError { index: i + 1, kind_name: kind_name.clone() });
                },
            };
            self.params.push(param);
            proof {
                assert(self.params_view() =~= before.push(values@[i as int].param()));
                assert(self.params_view() =~= old(self).params_view() + Seq::new(
                    (i + 1) as nat,
                    |k: int| values@[k].param(),
                ));
            }
            i += 1;
        }
        proof {
            lemma_supported_prefix_unique(values@, i as int);
        }
        Ok(())
    }

    /// Takes over what the host says of the query: binds the parameters, then
    /// sets the continuation, then whether the text is sent as it is. With no
    /// options nothing changes; with a parameter that cannot be bound the
    /// continuation and the flag stay as they were.
    pub fn parse_options(&mut self, options: Option<QueryOptions>) -> (res: Result<(), ParamError>)
        ensures
            final(self).query == old(self).query,
            final(self).kind == old(self).kind,
            final(self).sync == old(self).sync,
            options is None ==> res is Ok && *final(self) == *old(self),
            options matches Some(o) ==> {
                let values = if o.params is Some {
                    o.params->Some_0@
                } else {
                    Seq::<HostValue>::empty()
                };
                let bound = supported_prefix(values);
                &&& final(self).params_view() == old(self).params_view() + Seq::new(
                    bound as nat,
                    |i: int| values[i].param(),
                )
                &&& res is Ok <==> bound == values.len()
                &&& res matches Err(e) ==> e.index == bound + 1 && values[e.index - 1]
                    == HostValue::Unsupported(e.kind_name)
                &&& res is Ok ==> final(self).callback == (if o.callback is Some {
                    o.callback->Some_0
                } else {
                    old(self).callback
                }) && final(self).raw == (if o.raw is Some {
                    o.raw->Some_0
                } else {
                    old(self).raw
                })
                &&& res is Err ==> final(self).callback == old(self).callback && final(self).raw
                    == old(self).raw
            },
    {
        let options = match options {
            Some(o) => o,
            None => {
                return Ok(());
            },
        };
        match &options.params {
            Some(values) => {
                match self.bind_params(values) {
                    Ok(()) => {},
                    Err(e) => {
                        return Err(e);
                    },
                }
            },
            None => {
                proof {
                    assert(self.params_view() =~= old(self).params_view() + Seq::new(
                        0nat,
                        |i: int| Seq::<HostValue>::empty()[i].param(),
                    ));
                }
            },
        }
        match options.callback {
            Some(c) => {
                self.callback = c;
            },
            None => {},
        }
        match options.raw {
            Some(r) => {
                self.raw = r;
            },
            None => {},
        }
        Ok(())
    }

    /// What the driver is handed for this query: the text as it is, or the
    /// text with the parameters, which then leave the query.
    pub fn start(&mut self) -> (statement: Statement)
        ensures
            final(self).query == old(self).query,
            final(self).kind == old(self).kind,
            final(self).callback == old(self).callback,
            final(self).raw == old(self).raw,
            final(self).sync == old(self).sync,
            old(self).raw ==> statement == (Statement::Raw { text: old(self).query })
                && final(self).params == old(self).params,
            !old(self).raw ==> statement == (Statement::Prepared {
                text: old(self).query,
                params: old(self).params,
            }) && final(self).params@.len() == 0,
    {
        if self.raw {
            Statement::Raw { text: self.query.clone() }
        } else {
            let mut params: Vec<Param> = Vec::new();
            core::mem::swap(&mut self.params, &mut params);
            Statement::Prepared { text: self.query.clone(), params }
        }
    }
}

/// The value of one column of a row.
#[derive(Debug, Clone, PartialEq, Eq)]
pub enum CellValue {
    Nil,
    Boolean(bool),
    Integer(i64),
    Unsigned(u64),
    /// A floating-point number, as the bits of its double-precision form.
    Number { bits: u64 },
    Text(String),
    Bytes(Vec<u8>),
}

/// One column of a row: its name and its value.
#[derive(Debug, Clone, PartialEq, Eq)]
pub struct ColumnValue {
    pub column_name: String,
    pub value: CellValue,
}

/// What a query yields.
#[derive(Debug, Clone, PartialEq, Eq)]
pub enum QueryResult {
    Run,
    Execute { rows_affected: u64, last_insert_id: u64 },
    Rows(Vec<Vec<ColumnValue>>),
    /// `None` where no row was found.
    Row(Option<Vec<ColumnValue>>),
}

} // verus!
