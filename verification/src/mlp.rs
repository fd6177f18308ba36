//! The multi-layer-perceptron workload's registry entry: its display name,
//! its fixed list of parameter configurations, and the human-readable
//! enumeration of them that the report metadata carries. Building the model
//! itself and timing it is the external framework's and the benchmarking
//! engine's work, not this crate's.
#![allow(unused_imports)]
use crate::strings::{dec_spec, usize_to_string};
use vstd::prelude::*;

verus! {

/// One MLP parameter configuration.
#[derive(Clone, Copy, PartialEq, Eq, Structural, Debug)]
pub struct MlpConfig {
    pub batch_size: usize,
    pub num_layers: usize,
    pub d_model: usize,
}

impl MlpConfig {
    /// Packs one configuration.
    pub fn new(batch_size: usize, num_layers: usize, d_model: usize) -> (r: MlpConfig)
        ensures
            r == (MlpConfig { batch_size, num_layers, d_model }),
    {
        MlpConfig { batch_size, num_layers, d_model }
    }

    /// Returns the human-readable form of this configuration.
    pub fn display(&self) -> (r: String)
        ensures
            r@ == mlp_config_display_spec(*self),
    {
        let mut r = String::from_str("MlpConfig { batch_size: ");
        let batch = usize_to_string(self.batch_size);
        r.append(batch.as_str());
        r.append(", num_layers: ");
        let layers = usize_to_string(self.num_layers);
        r.append(layers.as_str());
        r.append(", d_model: ");
        let width = usize_to_string(self.d_model);
        r.append(width.as_str());
        r.append(" }");
        r
    }
}

/// The human-readable form of one configuration.
pub open spec fn mlp_config_display_spec(c: MlpConfig) -> Seq<char> {
    "MlpConfig { batch_size: "@ + dec_spec(c.batch_size as nat) + ", num_layers: "@ + dec_spec(
        c.num_layers as nat,
    ) + ", d_model: "@ + dec_spec(c.d_model as nat) + " }"@
}

/// The fixed configurations the MLP workload exercises, small to large.
pub open spec fn mlp_configs_spec() -> Seq<MlpConfig> {
    seq![
        MlpConfig { batch_size: 1, num_layers: 4, d_model: 128 },
        MlpConfig { batch_size: 16, num_layers: 4, d_model: 256 },
        MlpConfig { batch_size: 32, num_layers: 4, d_model: 512 },
        MlpConfig { batch_size: 64, num_layers: 4, d_model: 1024 },
    ]
}

/// Returns the fixed configurations the MLP workload exercises.
pub fn configs() -> (r: Vec<MlpConfig>)
    ensures
        r@ == mlp_configs_spec(),
{
    let mut r: Vec<MlpConfig> = Vec::new();
    r.push(MlpConfig::new(1, 4, 128));
    r.push(MlpConfig::new(16, 4, 256));
    r.push(MlpConfig::new(32, 4, 512));
    r.push(MlpConfig::new(64, 4, 1024));
    proof {
        assert(r@ =~= mlp_configs_spec());
    }
    r
}

/// The lines enumerating `cfgs`, one per configuration, numbered from 1.
pub open spec fn mlp_details_lines(cfgs: Seq<MlpConfig>) -> Seq<char>
    decreases cfgs.len(),
{
    if cfgs.len() == 0 {
        Seq::<char>::empty()
    } else {
        mlp_details_lines(cfgs.drop_last()) + "- "@ + dec_spec(cfgs.len() as nat) + " => `"@
            + mlp_config_display_spec(cfgs.last()) + "`\n"@
    }
}

/// The whole description of the MLP workload: a heading and one line per
/// configuration.
pub open spec fn mlp_details_spec() -> Seq<char> {
    "Multi layer perceptron (MLP) benchmarks.\n\n"@ + mlp_details_lines(mlp_configs_spec())
}

/// The MLP workload's handle under the benchmarking engine.
pub struct MlpBench;

impl MlpBench {
    /// Packs the workload handle.
    pub fn new() -> MlpBench {
        MlpBench
    }
}

/// The MLP workload's registry entry.
pub struct MlpBenchSuite;

impl MlpBenchSuite {
    /// Returns the workload's display name.
    pub fn name() -> (r: String)
        ensures
            r@ == "mlp"@,
    {
        String::from_str("mlp")
    }

    /// Returns the textual enumeration of every configuration the workload
    /// will exercise: index, then human-readable parameters.
    pub fn details() -> (r: String)
        ensures
            r@ == mlp_details_spec(),
    {
        let cfgs = configs();
        let mut r = String::from_str("Multi layer perceptron (MLP) benchmarks.\n\n");
        let ghost heading = "Multi layer perceptron (MLP) benchmarks.\n\n"@;
        let mut i: usize = 0;
        while i < cfgs.len()
            invariant
                i <= cfgs.len(),
                cfgs@ == mlp_configs_spec(),
                r@ == heading + mlp_details_lines(cfgs@.take(i as int)),
            decreases cfgs.len() - i,
        {
            r.append("- ");
            let num = usize_to_string(i + 1);
            r.append(num.as_str());
            r.append(" => `");
            let line = cfgs[i].display();
            r.append(line.as_str());
            r.append("`\n");
            proof {
                let taken = cfgs@.take(i as int + 1);
                assert(taken.drop_last() =~= cfgs@.take(i as int));
                assert(taken.last() == cfgs@[i as int]);
                assert(r@ =~= heading + mlp_details_lines(taken));
            }
            i = i + 1;
        }
        proof {
            assert(cfgs@.take(cfgs@.len() as int) =~= cfgs@);
        }
        r
    }
}

} // verus!
