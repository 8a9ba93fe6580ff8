//! Records returned by the show-metadata lookup, and the rule that picks
//! the external content identifier out of them.

use vstd::prelude::*;

verus! {

/// One show record of the metadata service.
#[derive(Debug, Clone)]
pub struct Series {
    pub title: String,
    pub imdb_id: Option<String>,
}

/// No record before index `k` carries an imdb id.
pub open spec fn spec_no_imdb_before(s: Seq<Series>, k: int) -> bool {
    forall|j: int| 0 <= j < k ==> (#[trigger] s[j].imdb_id) is None
}

/// The imdb id of the first record that carries one, if any does.
pub fn first_imdb_id(series: &Vec<Series>) -> (r: Option<String>)
    ensures
        r is None ==> spec_no_imdb_before(series@, series@.len() as int),
        r matches Some(id) ==> exists|k: int|
            0 <= k < series@.len() && spec_no_imdb_before(series@, k) && (
            #[trigger] series@[k].imdb_id) is Some && series@[k].imdb_id->Some_0@ == id@,
{
    let n: usize = series.len();
    let mut i: usize = 0;
    while i < n
        invariant
            0 <= i <= n,
            n == series@.len(),
            spec_no_imdb_before(series@, i as int),
        decreases n - i,
    {
        match &series[i].imdb_id {
            Some(id) => {
                return Some(id.clone());
            },
            None => {},
        }
        i += 1;
    }
    None
}

} // verus!
