//! A ready-made key record for exercising the pipeline.

use vstd::prelude::*;
use vstd::string::StringExecFns;

use crate::types::{ApiKey, ApiKeyLimit, ApiKeyLimits, ApiKeyRestrictions, ApiKeyStatus};

verus! {

/// An active record under the given identifier (or `test_key`), with a
/// hundred reads and writes per minute and one allowed domain. Timestamps
/// are left at zero; an administrative path fills them in.
pub fn get_mock_api_key(key: Option<String>) -> (r: ApiKey)
    ensures
        r@.key == (match key {
            Some(k) => k@,
            None => "test_key"@,
        }),
        r@.limits == (ApiKeyLimits {
            max_reads_per_minute: ApiKeyLimit::Limited(100),
            max_writes_per_minute: ApiKeyLimit::Limited(100),
        }),
        r@.allowed_domains =~= seq!["example.com"@],
        r@.status == ApiKeyStatus::Active,
        r@.created_at == 0 && r@.updated_at == 0,
{
    let identifier = match key {
        Some(k) => k,
        None => String::from_str("test_key"),
    };
    let mut domains: Vec<String> = Vec::new();
    domains.push(String::from_str("example.com"));
    proof {
        assert(domains.deep_view() =~= seq!["example.com"@]);
    }
    ApiKey {
        key: identifier,
        limits: ApiKeyLimits {
            max_reads_per_minute: ApiKeyLimit::Limited(100),
            max_writes_per_minute: ApiKeyLimit::Limited(100),
        },
        restrictions: ApiKeyRestrictions { allowed_domains: domains },
        status: ApiKeyStatus::Active,
        created_at: 0,
        updated_at: 0,
    }
}

} // verus!
