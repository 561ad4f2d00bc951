//! The two-step new-score screen: the data being assembled and the
//! instrument picker's state.

use vstd::prelude::*;

use crate::instruments::registry::{spec_lookup_by_name, Instrument, InstrumentRegistry};
use crate::project::{KeySignature, ProjectError, TimeSignature};

verus! {

#[derive(Debug)]
pub struct NewScoreData {
    pub title: String,
    pub instruments: Vec<Instrument>,
    pub tempo_bpm: u32,
    pub key_signature: KeySignature,
    pub time_signature: TimeSignature,
    pub create_empty_score: bool,
    pub insert_initial_measure: bool,
}

impl NewScoreData {
    /// The screen's defaults: an untitled score in common time at
    /// 120 beats per minute, with no instruments yet.
    pub fn default_with_time_signature() -> (outcome: Result<NewScoreData, ProjectError>)
        ensures
            outcome matches Ok(data) ==> {
                &&& data.title@ == "Nova Partitura"@
                &&& data.instruments@.len() == 0
                &&& data.tempo_bpm == 120
                &&& data.key_signature == KeySignature::C
                &&& data.time_signature == (TimeSignature { numerator: 4, denominator: 4 })
                &&& data.create_empty_score
                &&& data.insert_initial_measure
            },
            outcome is Ok,
    {
        let time_signature = match TimeSignature::new(4, 4) {
            Ok(time_signature) => time_signature,
            Err(error) => {
                return Err(error);
            },
        };
        Ok(
            NewScoreData {
                title: "Nova Partitura".to_owned(),
                instruments: Vec::new(),
                tempo_bpm: 120,
                key_signature: KeySignature::C,
                time_signature,
                create_empty_score: true,
                insert_initial_measure: true,
            },
        )
    }
}

#[derive(Debug)]
pub struct NewScoreUiState {
    pub query: String,
    pub available: Vec<Instrument>,
    pub selected_index: Option<usize>,
}

impl NewScoreUiState {
    /// The picker over a loaded registry: the standard ensemble
    /// names are looked up and every instrument found is offered, in
    /// the standard order.
    pub fn from_registry(registry: &InstrumentRegistry) -> (state: NewScoreUiState)
        ensures
            state.query@.len() == 0,
            state.selected_index is None,
            state.available@.len() <= 8,
    {
        let mut available: Vec<Instrument> = Vec::new();
        push_if_found(&mut available, registry, "Violin I");
        push_if_found(&mut available, registry, "Violin II");
        push_if_found(&mut available, registry, "Viola");
        push_if_found(&mut available, registry, "Cello");
        push_if_found(&mut available, registry, "Flute");
        push_if_found(&mut available, registry, "Clarinet");
        push_if_found(&mut available, registry, "Trumpet");
        push_if_found(&mut available, registry, "Piano");
        NewScoreUiState { query: String::new(), available, selected_index: None }
    }

    /// Copies the highlighted instrument, if any, into the score
    /// being assembled.
    pub fn add_selected(&self, data: &mut NewScoreData)
        ensures
            match self.selected_index {
                Some(index) => {
                    if index < self.available@.len() {
                        final(data).instruments@.len() == old(data).instruments@.len() + 1
                            && final(data).instruments@.last().spec_matches(
                            self.available@[index as int],
                        ) && forall|j: int|
                            0 <= j < old(data).instruments@.len() ==> final(data).instruments@[j] == old(data).instruments@[j]
                    } else {
                        final(data).instruments@ == old(data).instruments@
                    }
                },
                None => final(data).instruments@ == old(data).instruments@,
            },
            final(data).title@ == old(data).title@,
            final(data).tempo_bpm == old(data).tempo_bpm,
    {
        if let Some(index) = self.selected_index {
            if index < self.available.len() {
                data.instruments.push(self.available[index].clone());
            }
        }
    }

    /// Removes the instrument at `index` from the score being
    /// assembled; an index past the end changes nothing.
    pub fn remove_selected(data: &mut NewScoreData, index: usize)
        ensures
            index < old(data).instruments@.len() ==> final(data).instruments@ == old(data).instruments@.remove(index as int),
            index >= old(data).instruments@.len() ==> final(data).instruments@ == old(data).instruments@,
            final(data).title@ == old(data).title@,
    {
        if index < data.instruments.len() {
            let _ = data.instruments.remove(index);
        }
    }

    /// Moves the instrument at `from` so that it sits at `to`; out
    /// of range positions, or a move onto itself, change nothing.
    pub fn reorder_selected(data: &mut NewScoreData, from: usize, to: usize)
        ensures
            (from >= old(data).instruments@.len() || to >= old(data).instruments@.len() || from
                == to) ==> final(data).instruments@ == old(data).instruments@,
            (from < old(data).instruments@.len() && to < old(data).instruments@.len() && from
                != to) ==> final(data).instruments@ == old(data).instruments@.remove(
                from as int,
            ).insert(to as int, old(data).instruments@[from as int]),
            final(data).title@ == old(data).title@,
    {
        if from >= data.instruments.len() || to >= data.instruments.len() || from == to {
            return ;
        }
        let item = data.instruments.remove(from);
        data.instruments.insert(to, item);
    }
}

/// Offers the named instrument when the registry knows it.
fn push_if_found(available: &mut Vec<Instrument>, registry: &InstrumentRegistry, name: &str)
    ensures
        final(available)@.len() <= old(available)@.len() + 1,
        forall|j: int| 0 <= j < old(available)@.len() ==> final(available)@[j] == old(available)@[j],
        final(available)@.len() > old(available)@.len() ==> (spec_lookup_by_name(
            registry.spec_entries(),
            name@,
        ) matches Some(j) && final(available)@.last().spec_matches(registry.spec_entries()[j])),
{
    let found = registry.find_by_name(name);
    match found {
        Some(instrument) => {
            proof {
                crate::instruments::registry::lemma_lookup_in_range(
                    registry.spec_entries(),
                    name@,
                );
            }
            available.push(instrument.clone());
        },
        None => {},
    }
}

} // verus!
