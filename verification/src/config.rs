//! The hyperparameters of one adapter.

use vstd::prelude::*;

use crate::names::{
    contains_name, distinct_names, first_occurrences, name_set, same_names, without_repeats,
};

verus! {

/// The hyperparameters of one adapter: its rank, its alpha, its dropout
/// probability and the modules it targets.
///
/// The two real numbers are held by their bit patterns, alpha as a double
/// and the dropout probability as a single: the library hands them to the
/// tensor engine and computes nothing with them itself.
#[derive(Debug)]
pub struct LoraConfig {
    rank: usize,
    alpha_bits: u64,
    dropout_bits: Option<u32>,
    target_modules: Vec<String>,
}

impl Clone for LoraConfig {
    /// A configuration of the same values.
    fn clone(&self) -> (copy: Self)
        ensures
            copy.rank() == self.rank(),
            copy.alpha_bits() == self.alpha_bits(),
            copy.dropout_bits() == self.dropout_bits(),
            copy.spec_target_modules() == self.spec_target_modules(),
    {
        proof {
            use_type_invariant(self);
        }
        let mut names: Vec<String> = Vec::new();
        let mut i: usize = 0;
        while i < self.target_modules.len()
            invariant
                i <= self.target_modules.len(),
                names@ == self.target_modules@.take(i as int),
            decreases self.target_modules.len() - i,
        {
            names.push(self.target_modules[i].clone());
            assert(names@ =~= self.target_modules@.take(i + 1));
            i += 1;
        }
        assert(names@ =~= self.target_modules@);
        LoraConfig {
            rank: self.rank,
            alpha_bits: self.alpha_bits,
            dropout_bits: self.dropout_bits,
            target_modules: names,
        }
    }
}

impl LoraConfig {
    /// The targeted modules are a set: no name is stored twice.
    #[verifier::type_invariant]
    spec fn inv(self) -> bool {
        distinct_names(self.target_modules@)
    }

    /// The rank of the low-rank factors.
    pub closed spec fn spec_rank(&self) -> usize {
        self.rank
    }

    /// The bit pattern of alpha.
    pub closed spec fn spec_alpha_bits(&self) -> u64 {
        self.alpha_bits
    }

    /// The bit pattern of the dropout probability, where one is set.
    pub closed spec fn spec_dropout_bits(&self) -> Option<u32> {
        self.dropout_bits
    }

    /// The names of the targeted modules, as they are stored.
    pub closed spec fn spec_target_modules(&self) -> Seq<String> {
        self.target_modules@
    }

    /// The set of targeted modules.
    pub open spec fn targets(&self) -> Set<Seq<char>> {
        name_set(self.spec_target_modules())
    }

    /// No targeted module is stored twice. This holds of every
    /// configuration.
    pub open spec fn wf(&self) -> bool {
        distinct_names(self.spec_target_modules())
    }

    /// A configuration of the given values. The targeted modules are taken
    /// as a set: a name given more than once is kept once, where it came
    /// first.
    pub fn new(
        rank: usize,
        alpha_bits: u64,
        dropout_bits: Option<u32>,
        target_modules: Vec<String>,
    ) -> (config: Self)
        ensures
            config.wf(),
            config.spec_target_modules() == first_occurrences(target_modules@),
            config.rank() == rank,
            config.alpha_bits() == alpha_bits,
            config.dropout_bits() == dropout_bits,
            config.targets() == name_set(target_modules@),
    {
        Self { rank, alpha_bits, dropout_bits, target_modules: without_repeats(target_modules) }
    }

    /// The rank of the low-rank factors.
    #[verifier::when_used_as_spec(spec_rank)]
    pub fn rank(&self) -> (rank: usize)
        ensures
            rank == self.rank(),
    {
        self.rank
    }

    /// The bit pattern of alpha.
    #[verifier::when_used_as_spec(spec_alpha_bits)]
    pub fn alpha_bits(&self) -> (bits: u64)
        ensures
            bits == self.alpha_bits(),
    {
        self.alpha_bits
    }

    /// The bit pattern of the dropout probability, where one is set.
    #[verifier::when_used_as_spec(spec_dropout_bits)]
    pub fn dropout_bits(&self) -> (bits: Option<u32>)
        ensures
            bits == self.dropout_bits(),
    {
        self.dropout_bits
    }

    /// The names of the targeted modules, each once.
    pub fn target_modules(&self) -> (names: &Vec<String>)
        ensures
            names@ == self.spec_target_modules(),
            distinct_names(names@),
            self.wf(),
    {
        proof {
            use_type_invariant(self);
        }
        &self.target_modules
    }

    /// Whether the configuration targets the module of the given name.
    pub fn targets_module(&self, module: &String) -> (hit: bool)
        ensures
            hit == self.targets().contains(module@),
    {
        contains_name(&self.target_modules, module)
    }

    /// Whether two configurations target the same set of modules.
    pub fn same_targets(&self, other: &LoraConfig) -> (same: bool)
        ensures
            same == (self.targets() == other.targets()),
    {
        same_names(&self.target_modules, &other.target_modules)
    }
}

} // verus!
