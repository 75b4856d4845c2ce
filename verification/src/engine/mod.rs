//! The interface to chess engines, and the set of engines the program drives.
pub mod stockfish;

use vstd::prelude::*;

verus! {

/// One principal variation reported by an engine.
pub struct PVLine {
    pub multipv: u8,
    pub eval_cp: Option<i32>,
    pub eval_type: EvalType,
    pub mate_val: Option<i32>,
    pub pv: Vec<String>,
    pub first_move: String,
}

impl Clone for PVLine {
    fn clone(&self) -> (c: Self)
        ensures
            c.multipv == self.multipv,
            c.eval_cp == self.eval_cp,
            c.eval_type == self.eval_type,
            c.mate_val == self.mate_val,
            c.pv@.len() == self.pv@.len(),
            forall|i: int| 0 <= i < c.pv@.len() ==> #[trigger] c.pv@[i]@ == self.pv@[i]@,
            c.first_move@ == self.first_move@,
            c@ == self@,
    {
        let mut pv: Vec<String> = Vec::new();
        let mut i: usize = 0;
        while i < self.pv.len()
            invariant
                i <= self.pv@.len(),
                pv@.len() == i,
                forall|j: int| 0 <= j < i ==> #[trigger] pv@[j]@ == self.pv@[j]@,
            decreases self.pv@.len() - i,
        {
            pv.push(self.pv[i].clone());
            i = i + 1;
        }
        let c = PVLine {
            multipv: self.multipv,
            eval_cp: self.eval_cp,
            eval_type: self.eval_type,
            mate_val: self.mate_val,
            pv,
            first_move: self.first_move.clone(),
        };
        assert(c.pv@.map_values(|s: String| s@) =~= self.pv@.map_values(|s: String| s@));
        c
    }
}

/// How an evaluation is expressed.
#[derive(Debug, Clone, Copy, PartialEq, Eq, Structural)]
pub enum EvalType {
    Centipawn,
    Mate,
}

/// Limits of one search.
pub struct SearchOptions {
    pub depth: Option<u8>,
    pub movetime_ms: Option<u32>,
    pub multi_pv: u8,
}

/// Why an engine call failed.
pub struct EngineError {
    pub message: String,
}

/// A chess engine the program can ask for moves.
pub trait ChessEngine {
    fn name(&self) -> &str;
    fn set_position(&mut self, fen: &str) -> Result<(), EngineError>;
    fn get_best_move(&mut self, options: SearchOptions) -> Result<String, EngineError>;
    fn get_multi_pv(&mut self, options: SearchOptions) -> Result<Vec<PVLine>, EngineError>;
    fn set_skill_level(&mut self, level: u8) -> Result<(), EngineError>;
    fn stop(&mut self);
    fn is_ready(&self) -> bool;
}

/// The engines, and which of them is in use.
pub struct EngineManager {
    engines: Vec<Box<dyn ChessEngine>>,
    active_engine: usize,
}

impl EngineManager {
    /// The active index is 0 or the place of a registered engine.
    #[verifier::type_invariant]
    spec fn active_in_range(&self) -> bool {
        self.active_engine == 0 || self.active_engine < self.engines@.len()
    }

    /// The number of engines registered.
    pub closed spec fn engine_count(&self) -> nat {
        self.engines@.len()
    }

    /// The engines, in the order they were added.
    pub closed spec fn engine_seq(&self) -> Seq<Box<dyn ChessEngine>> {
        self.engines@
    }

    /// The index of the engine in use.
    pub closed spec fn active_index(&self) -> nat {
        self.active_engine as nat
    }

    /// No engines, the first (absent) one active.
    pub fn new() -> (m: EngineManager)
        ensures
            m.engine_count() == 0,
            m.engine_seq() == Seq::<Box<dyn ChessEngine>>::empty(),
            m.active_index() == 0,
    {
        EngineManager { engines: Vec::new(), active_engine: 0 }
    }

    /// Registers one more engine.
    pub fn add_engine(&mut self, engine: Box<dyn ChessEngine>)
        ensures
            final(self).engine_count() == old(self).engine_count() + 1,
            final(self).engine_seq() == old(self).engine_seq().push(engine),
            final(self).active_index() == old(self).active_index(),
            final(self).active_index() < final(self).engine_count(),
    {
        proof {
            use_type_invariant(&*self);
        }
        let mut taken = EngineManager::new();
        std::mem::swap(&mut taken, self);
        let EngineManager { mut engines, active_engine } = taken;
        let ghost before = engines@;
        engines.push(engine);
        proof {
            // the general sequence facts do not reach elements of a `dyn` type
            vstd::seq::axiom_seq_push_len(before, engine);
        }
        *self = EngineManager { engines, active_engine };
    }

    /// Makes the engine at `index` the active one, if there is one there.
    pub fn set_active_engine(&mut self, index: usize)
        ensures
            final(self).engine_count() == old(self).engine_count(),
            final(self).engine_seq() == old(self).engine_seq(),
            final(self).active_index() == if index < old(self).engine_count() {
                index as nat
            } else {
                old(self).active_index()
            },
            final(self).engine_count() > 0 ==> final(self).active_index() < final(self).engine_count(),
    {
        proof {
            use_type_invariant(&*self);
        }
        if index < self.engines.len() {
            self.active_engine = index;
        }
    }

    /// The active engine, if the active index holds one.
    pub fn get_active_engine(&mut self) -> (r: Option<&mut Box<dyn ChessEngine>>)
        ensures
            r is Some <==> old(self).active_index() < old(self).engine_count(),
            r is Some <==> old(self).engine_count() > 0,
            r matches Some(e) ==> *e == old(self).engine_seq()[old(self).active_index() as int],
            r is None ==> final(self).engine_seq() == old(self).engine_seq(),
            final(self).active_index() == old(self).active_index(),
    {
        proof {
            use_type_invariant(&*self);
        }
        if self.active_engine < self.engines.len() {
            let i = self.active_engine;
            let ghost before = self.engines@;
            let e = &mut self.engines[i];
            assert(*e == before[i as int]);
            Some(e)
        } else {
            None
        }
    }
}

impl Default for EngineManager {
    fn default() -> (m: Self)
        ensures
            m.engine_count() == 0,
            m.engine_seq() == Seq::<Box<dyn ChessEngine>>::empty(),
            m.active_index() == 0,
    {
        EngineManager::new()
    }
}

} // verus!
