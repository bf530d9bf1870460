use vstd::prelude::*;

verus! {

/// Failure taxonomy of the persistence and query layer. Every failure is
/// surfaced as one of these typed values; nothing is retried and nothing
/// degrades silently.
#[derive(Clone, Debug)]
pub enum RowParsingError {
    /// The store could not be opened, or a pooled connection could not be
    /// acquired.
    Connectivity(String),
    /// A table or index creation statement failed for a reason other than
    /// "already exists".
    Schema(String),
    /// A stored value could not be decoded into its domain type; names the
    /// entity and the column whose stored form was unrecognized.
    Serialization { entity: String, column: String },
    /// Conflicting query parameters, or a lookup that resolved to zero or to
    /// several rows where exactly one was required.
    QueryConstruction(String),
    /// A bulk-load source was missing, unreadable or malformed.
    IngestionSource(String),
}

impl RowParsingError {
    /// True of the decoding failures raised by the row codecs.
    pub open spec fn is_serialization(&self) -> bool {
        self matches RowParsingError::Serialization { .. }
    }

    pub open spec fn is_connectivity(&self) -> bool {
        self matches RowParsingError::Connectivity(_)
    }

    pub open spec fn is_schema(&self) -> bool {
        self matches RowParsingError::Schema(_)
    }

    pub open spec fn is_query_construction(&self) -> bool {
        self matches RowParsingError::QueryConstruction(_)
    }

    pub open spec fn is_ingestion_source(&self) -> bool {
        self matches RowParsingError::IngestionSource(_)
    }
}

} // verus!
