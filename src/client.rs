use vstd::prelude::*;

verus! {

/// Where a trading client keeps its trade.
pub fn get_file_path(trade_id: &str) -> (r: String)
    ensures
        r@ == "./.trades/ongoing/"@ + trade_id@ + "-client.json"@,
{
    let mut s = String::from_str("./.trades/ongoing/");
    s.append(trade_id);
    s.append("-client.json");
    s
}

} // verus!
