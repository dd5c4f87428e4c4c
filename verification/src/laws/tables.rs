//! The decode tables of the EVM adapter: which logs they read.

use vstd::prelude::*;
use crate::evm::{EvmAdapter, PayloadLengths};

verus! {

/// A blob decodes exactly when it is long enough for every field that the
/// table of its event names: no other blob is refused, and none that is too
/// short is read.
pub proof fn lemma_log_decodes_iff_it_fits(adapter: EvmAdapter, data: Seq<u8>)
    ensures
        adapter.spec_add_to_order(data) is Some <==> adapter.layout.add_to_order.fits(
            data.len() as int,
        ),
        adapter.spec_remove_from_order(data) is Some <==> adapter.layout.remove_from_order.fits(
            data.len() as int,
        ),
        adapter.spec_lock_sell(data) is Some <==> adapter.layout.lock_sell.fits(data.len() as int),
        adapter.spec_unlock_sell(data) is Some <==> adapter.layout.unlock_sell.fits(
            data.len() as int,
        ),
        adapter.spec_timeout_sell(data) is Some <==> adapter.layout.timeout_sell.fits(
            data.len() as int,
        ),
        adapter.spec_lock_buy(data) is Some <==> adapter.layout.lock_buy.fits(data.len() as int),
        adapter.spec_unlock_buy(data) is Some <==> adapter.layout.unlock_buy.fits(
            data.len() as int,
        ),
        adapter.spec_timeout_buy(data) is Some <==> adapter.layout.timeout_buy.fits(
            data.len() as int,
        ),
{
}

/// With a table that was validated against the lengths of the blobs, every
/// blob of its full length decodes: a log of a known event from one of the
/// two contracts is never lost to the table.
pub proof fn lemma_validated_table_reads_full_logs(
    adapter: EvmAdapter,
    lengths: PayloadLengths,
    data: Seq<u8>,
)
    requires
        adapter.layout.fits(lengths),
    ensures
        data.len() >= lengths.add_to_order ==> adapter.spec_add_to_order(data) is Some,
        data.len() >= lengths.remove_from_order ==> adapter.spec_remove_from_order(data) is Some,
        data.len() >= lengths.lock_sell ==> adapter.spec_lock_sell(data) is Some,
        data.len() >= lengths.unlock_sell ==> adapter.spec_unlock_sell(data) is Some,
        data.len() >= lengths.timeout_sell ==> adapter.spec_timeout_sell(data) is Some,
        data.len() >= lengths.lock_buy ==> adapter.spec_lock_buy(data) is Some,
        data.len() >= lengths.unlock_buy ==> adapter.spec_unlock_buy(data) is Some,
        data.len() >= lengths.timeout_buy ==> adapter.spec_timeout_buy(data) is Some,
{
    lemma_log_decodes_iff_it_fits(adapter, data);
}

} // verus!
