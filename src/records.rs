//! The metadata query adapter: the metadata store answers a query with one
//! result per statement; only the first counts, and it must be an array of
//! objects.
use vstd::prelude::*;
use vstd::string::StringExecFns;

verus! {

/// One element of an array result.
#[derive(Debug, Clone, PartialEq, Eq)]
pub enum Element<T> {
    Object(T),
    /// Any value that is not an object.
    Other,
}

/// The result of one statement.
#[derive(Debug, Clone, PartialEq, Eq)]
pub enum Statement<T> {
    /// The statement failed, with the error's text.
    Failed(String),
    Array(Vec<Element<T>>),
    /// Any value that is not an array.
    Other,
}

/// Why a query result could not be read as records.
#[derive(Debug, Clone, PartialEq, Eq)]
pub enum QueryError {
    /// The first statement failed, with the error's text.
    Statement(String),
    /// There is no first result, it is not an array, or an element of the
    /// array is not an object.
    NoRecord,
}

/// The statement that reads every record of one owner address, bound as `$address`.
pub const ADDRESS_QUERY: &'static str = "SELECT * FROM nftMarketItem WHERE address = $address";

/// The statement that writes one record, bound as `$data`.
pub const CREATE_RECORD: &'static str = "CREATE nftMarketItem CONTENT $data";

impl QueryError {
    pub open spec fn message_of(&self) -> Seq<char> {
        match self {
            QueryError::Statement(e) => e@,
            QueryError::NoRecord => "No record was found"@,
        }
    }

    /// The error's text.
    pub fn message(&self) -> (r: String)
        ensures
            r@ == self.message_of(),
    {
        match self {
            QueryError::Statement(e) => e.clone(),
            QueryError::NoRecord => String::from_str("No record was found"),
        }
    }
}

pub open spec fn all_objects<T>(items: Seq<Element<T>>) -> bool {
    forall|i: int| 0 <= i < items.len() ==> (#[trigger] items[i]) is Object
}

pub open spec fn objects<T>(items: Seq<Element<T>>) -> Seq<T> {
    items.map_values(|e: Element<T>| e->Object_0)
}

/// The records that a query result holds, or why it holds none.
pub open spec fn decode<T>(results: Seq<Statement<T>>) -> Result<Seq<T>, QueryError> {
    if results.len() == 0 {
        Err(QueryError::NoRecord)
    } else {
        match results[0] {
            Statement::Failed(e) => Err(QueryError::Statement(e)),
            Statement::Array(items) => if all_objects(items@) {
                Ok(objects(items@))
            } else {
                Err(QueryError::NoRecord)
            },
            Statement::Other => Err(QueryError::NoRecord),
        }
    }
}

pub open spec fn view_result<T>(r: Result<Vec<T>, QueryError>) -> Result<Seq<T>, QueryError> {
    match r {
        Ok(v) => Ok(v@),
        Err(e) => Err(e),
    }
}

/// Reads the first statement's result as a sequence of records, in order.
pub fn into_iter_objects<T>(results: Vec<Statement<T>>) -> (r: Result<Vec<T>, QueryError>)
    ensures
        view_result(r) == decode(results@),
{
    let ghost given = results@;
    let mut rest = results;
    if rest.len() == 0 {
        return Err(QueryError::NoRecord);
    }
    let first = rest.swap_remove(0);
    match first {
        Statement::Failed(e) => Err(QueryError::Statement(e)),
        Statement::Other => Err(QueryError::NoRecord),
        Statement::Array(items) => {
            let ghost all = items@;
            let mut out: Vec<T> = Vec::new();
            for e in it: items.into_iter()
                invariant
                    it.seq() == all,
                    given == results@,
                    decode(given) == (if all_objects(all) {
                        Ok(objects(all))
                    } else {
                        Err(QueryError::NoRecord)
                    }),
                    out@ == objects(all.take(it.index() as int)),
                    all_objects(all.take(it.index() as int)),
            {
                match e {
                    Element::Object(x) => {
                        out.push(x);
                        assert(all.take(it.index() + 1) =~= all.take(it.index() as int).push(
                            all[it.index() as int],
                        ));
                        assert(out@ =~= objects(all.take(it.index() + 1)));
                    },
                    Element::Other => {
                        assert(!(all[it.index() as int] is Object));
                        assert(!all_objects(all));
                        return Err(QueryError::NoRecord);
                    },
                }
            }
            assert(all.take(all.len() as int) =~= all);
            Ok(out)
        },
    }
}

} // verus!
