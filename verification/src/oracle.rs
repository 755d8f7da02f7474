//! Oracle collaborator, at its interface boundary: aggregated submissions
//! per data identifier, a submission count, and a resolution that either
//! yields the consensus value or rejects the data as stale or an outlier.
//!
//! How the aggregator collects submissions and computes consensus is the
//! collaborator's own affair; here a record carries the aggregate and the
//! aggregator's staleness and outlier verdicts as plain data, so the
//! validation logic that consumes them covers every possible verdict.

use vstd::prelude::*;
use std::collections::HashMap;
use crate::claims::ContractError;

verus! {

broadcast use vstd::std_specs::hash::group_hash_axioms;

/// The aggregate the oracle holds for one data identifier.
#[derive(Clone, Copy, Debug, PartialEq, Eq, Structural)]
pub struct OracleRecord {
    pub value: i128,
    pub submissions: u32,
    pub confidence: u32,
    pub timestamp: u64,
    /// The aggregator's verdict that the data is too old to use.
    pub stale: bool,
    /// The aggregator's verdict that the data contains outlier submissions.
    pub outlier: bool,
}

/// The oracle component: aggregated records keyed by data identifier.
pub struct Oracle {
    records: HashMap<u64, OracleRecord>,
}

impl Oracle {
    /// The aggregated records, keyed by data identifier.
    pub closed spec fn records_map(self) -> Map<u64, OracleRecord> {
        self.records@
    }

    /// How many submissions back `data_id`: the record's count, or zero for
    /// an unknown identifier.
    pub open spec fn spec_submission_count(self, data_id: u64) -> u32 {
        if self.records_map().contains_key(data_id) {
            self.records_map()[data_id].submissions
        } else {
            0
        }
    }

    /// What resolving `data_id` yields: the consensus tuple `(value,
    /// submissions, confidence, timestamp)`, or the failure the aggregator
    /// reports — `NotFound` for an unknown identifier, `OracleDataStale` for
    /// stale data, `OracleOutlierDetected` for outliers.
    pub open spec fn spec_resolution(self, data_id: u64) -> Result<
        (i128, u32, u32, u64),
        ContractError,
    > {
        if !self.records_map().contains_key(data_id) {
            Err(ContractError::NotFound)
        } else if self.records_map()[data_id].stale {
            Err(ContractError::OracleDataStale)
        } else if self.records_map()[data_id].outlier {
            Err(ContractError::OracleOutlierDetected)
        } else {
            Ok(
                (
                    self.records_map()[data_id].value,
                    self.records_map()[data_id].submissions,
                    self.records_map()[data_id].confidence,
                    self.records_map()[data_id].timestamp,
                ),
            )
        }
    }

    /// An oracle holding no records.
    pub fn new() -> (oracle: Oracle)
        ensures
            oracle.records_map() == Map::<u64, OracleRecord>::empty(),
    {
        Oracle { records: HashMap::new() }
    }

    /// Stores (or replaces) the aggregate for `data_id`.
    pub fn set_record(&mut self, data_id: u64, record: OracleRecord)
        ensures
            final(self).records_map() == old(self).records_map().insert(data_id, record),
    {
        self.records.insert(data_id, record);
    }

    /// The number of submissions backing `data_id`; zero for an unknown
    /// identifier.
    pub fn get_submission_count(&self, data_id: u64) -> (r: u32)
        ensures
            r == self.spec_submission_count(data_id),
    {
        match self.records.get(&data_id) {
            Some(record) => record.submissions,
            None => 0,
        }
    }

    /// Resolves `data_id` to the consensus tuple, or the failure the
    /// aggregator reports; staleness and outlier failures propagate to the
    /// caller unchanged.
    pub fn resolve_oracle_data(&self, data_id: u64) -> (r: Result<
        (i128, u32, u32, u64),
        ContractError,
    >)
        ensures
            r == self.spec_resolution(data_id),
    {
        match self.records.get(&data_id) {
            Some(record) => {
                if record.stale {
                    Err(ContractError::OracleDataStale)
                } else if record.outlier {
                    Err(ContractError::OracleOutlierDetected)
                } else {
                    Ok((record.value, record.submissions, record.confidence, record.timestamp))
                }
            },
            None => Err(ContractError::NotFound),
        }
    }
}

} // verus!
