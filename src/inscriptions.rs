use vstd::prelude::*;
use crate::chain::Chain;
use crate::sat_point::{inscription_text, same_outpoint, InscriptionId, OutPoint, SatPoint};

verus! {

/// One inscription that the wallet holds: where it sits and where to see it.
#[derive(Debug)]
pub struct Output {
    pub inscription: InscriptionId,
    pub location: SatPoint,
    pub explorer: String,
}

/// What an [`Output`] holds, with its link as text.
pub struct OutputView {
    pub inscription: InscriptionId,
    pub location: SatPoint,
    pub explorer: Seq<char>,
}

impl View for Output {
    type V = OutputView;

    open spec fn view(&self) -> OutputView {
        OutputView { inscription: self.inscription, location: self.location, explorer: self.explorer@ }
    }
}

/// Whether the output `op` is among `unspent`.
pub open spec fn is_unspent(op: OutPoint, unspent: Seq<OutPoint>) -> bool {
    exists|j: int| 0 <= j < unspent.len() && same_outpoint(#[trigger] unspent[j], op)
}

/// The entry for the inscription `id` at `location`, linked under `base`.
pub open spec fn output_of(location: SatPoint, id: InscriptionId, base: Seq<char>) -> OutputView {
    OutputView { inscription: id, location, explorer: base + inscription_text(id) }
}

/// The entries, in the order of `locations`, of the inscriptions that sit on
/// an output among `unspent`.
pub open spec fn reconciled(
    locations: Seq<(SatPoint, InscriptionId)>,
    unspent: Seq<OutPoint>,
    base: Seq<char>,
) -> Seq<OutputView>
    decreases locations.len(),
{
    if locations.len() == 0 {
        Seq::empty()
    } else {
        let rest = reconciled(locations.drop_last(), unspent, base);
        let (location, id) = locations.last();
        if is_unspent(location.outpoint, unspent) {
            rest.push(output_of(location, id, base))
        } else {
            rest
        }
    }
}

fn contains_outpoint(unspent: &Vec<OutPoint>, op: &OutPoint) -> (r: bool)
    ensures
        r == is_unspent(*op, unspent@),
{
    let mut i: usize = 0;
    while i < unspent.len()
        invariant
            i <= unspent@.len(),
            forall|j: int| 0 <= j < i ==> !same_outpoint(#[trigger] unspent@[j], *op),
        decreases unspent@.len() - i,
    {
        if unspent[i].same_as(op) {
            return true;
        }
        i = i + 1;
    }
    false
}

/// The inscriptions of `inscriptions` (each with its location, in the index's
/// order) that sit on one of the wallet's `unspent_outputs`, each with its
/// explorer link on `chain`. Nothing is sorted or removed but what the
/// wallet does not hold.
pub fn run(
    chain: Chain,
    inscriptions: &Vec<(SatPoint, InscriptionId)>,
    unspent_outputs: &Vec<OutPoint>,
) -> (r: Vec<Output>)
    ensures
        r@.map_values(|o: Output| o@) == reconciled(
            inscriptions@,
            unspent_outputs@,
            chain.spec_explorer_base_url(),
        ),
{
    let explorer: &str = chain.explorer_base_url();
    let mut output: Vec<Output> = Vec::new();
    let mut i: usize = 0;
    while i < inscriptions.len()
        invariant
            i <= inscriptions@.len(),
            explorer@ == chain.spec_explorer_base_url(),
            output@.map_values(|o: Output| o@) == reconciled(
                inscriptions@.subrange(0, i as int),
                unspent_outputs@,
                explorer@,
            ),
        decreases inscriptions@.len() - i,
    {
        let (location, inscription) = inscriptions[i];
        assert(inscriptions@.subrange(0, i + 1).drop_last() =~= inscriptions@.subrange(0, i as int));
        if contains_outpoint(unspent_outputs, &location.outpoint) {
            let mut link: String = String::from_str(explorer);
            let text: String = inscription.to_string();
            link.append(text.as_str());
            let ghost before = output@;
            output.push(Output { location, inscription, explorer: link });
            assert(output@.map_values(|o: Output| o@) =~= before.map_values(|o: Output| o@).push(
                output_of(location, inscription, explorer@),
            ));
        }
        i = i + 1;
    }
    assert(inscriptions@.subrange(0, inscriptions@.len() as int) =~= inscriptions@);
    output
}

} // verus!
