//! Assembles the metadata document the external table renderer reads: host
//! facts (name, OS and kernel versions, CPU, GPUs) and one section per
//! benchmark suite with its display name and configuration enumeration.
//! Gathering the host facts and writing the document are the caller's work;
//! this module only renders given facts into the document.
#![allow(unused_imports)]
use crate::strings::{dec_spec, usize_to_string};
use vstd::prelude::*;

verus! {

/// One GPU of the host, as handed in by whoever queried the machine.
pub struct GpuInfo {
    pub brand: String,
    pub name: String,
}

/// The host facts the metadata document records. Absent facts are left out of
/// the document.
pub struct SystemInfo {
    pub name: Option<String>,
    pub os_version: Option<String>,
    pub kernel_version: Option<String>,
    pub cpu_brand: String,
    pub cpu_name: String,
    pub gpus: Vec<GpuInfo>,
}

/// One GPU entry: an unnumbered heading when the host has exactly one GPU, a
/// numbered one otherwise, then brand and name.
pub open spec fn gpu_line_spec(g: GpuInfo, index: int, count: int) -> Seq<char> {
    (if count == 1 {
        "- GPU: "@
    } else {
        "- GPU("@ + dec_spec(index as nat) + "): "@
    }) + g.brand@ + " "@ + g.name@
}

/// The GPU entries of every GPU, in index order.
pub open spec fn gpu_lines_spec(gpus: Seq<GpuInfo>, count: int) -> Seq<char>
    decreases gpus.len(),
{
    if gpus.len() == 0 {
        Seq::<char>::empty()
    } else {
        gpu_lines_spec(gpus.drop_last(), count) + gpu_line_spec(
            gpus.last(),
            gpus.len() - 1,
            count,
        )
    }
}

/// The system block of the document: one line per known host fact, the CPU
/// line, then the GPU entries.
pub open spec fn system_info_spec(info: SystemInfo) -> Seq<char> {
    "\n## System\n\n"@ + (match info.name {
        Option::Some(n) => "- Name: "@ + n@ + "\n"@,
        Option::None => Seq::<char>::empty(),
    }) + (match info.os_version {
        Option::Some(v) => "- OS version: "@ + v@ + "\n"@,
        Option::None => Seq::<char>::empty(),
    }) + (match info.kernel_version {
        Option::Some(v) => "- Kernel Version: "@ + v@ + "\n"@,
        Option::None => Seq::<char>::empty(),
    }) + "- CPU: "@ + info.cpu_brand@ + " "@ + info.cpu_name@ + "\n"@ + gpu_lines_spec(
        info.gpus@,
        info.gpus@.len() as int,
    )
}

/// Renders the system block from the given host facts.
pub fn system_info_text(info: &SystemInfo) -> (r: String)
    ensures
        r@ == system_info_spec(*info),
{
    let mut r = String::from_str("\n## System\n\n");
    match &info.name {
        Option::Some(n) => {
            r.append("- Name: ");
            r.append(n.as_str());
            r.append("\n");
        },
        Option::None => {},
    }
    match &info.os_version {
        Option::Some(v) => {
            r.append("- OS version: ");
            r.append(v.as_str());
            r.append("\n");
        },
        Option::None => {},
    }
    match &info.kernel_version {
        Option::Some(v) => {
            r.append("- Kernel Version: ");
            r.append(v.as_str());
            r.append("\n");
        },
        Option::None => {},
    }
    r.append("- CPU: ");
    r.append(info.cpu_brand.as_str());
    r.append(" ");
    r.append(info.cpu_name.as_str());
    r.append("\n");
    let ghost head = r@;
    let count = info.gpus.len();
    let mut i: usize = 0;
    while i < count
        invariant
            i <= count,
            count == info.gpus@.len(),
            head + gpu_lines_spec(info.gpus@, count as int) == system_info_spec(*info),
            r@ == head + gpu_lines_spec(info.gpus@.take(i as int), count as int),
        decreases count - i,
    {
        if count == 1 {
            r.append("- GPU: ");
        } else {
            r.append("- GPU(");
            let num = usize_to_string(i);
            r.append(num.as_str());
            r.append("): ");
        }
        r.append(info.gpus[i].brand.as_str());
        r.append(" ");
        r.append(info.gpus[i].name.as_str());
        proof {
            let taken = info.gpus@.take(i as int + 1);
            assert(taken.drop_last() =~= info.gpus@.take(i as int));
            assert(taken.last() == info.gpus@[i as int]);
            assert(r@ =~= head + gpu_lines_spec(taken, count as int));
        }
        i = i + 1;
    }
    proof {
        assert(info.gpus@.take(count as int) =~= info.gpus@);
    }
    r
}

/// One named section of the document, fenced the way the renderer expects.
pub open spec fn section_spec(name: Seq<char>, content: Seq<char>) -> Seq<char> {
    name + " = \"\"\"\n"@ + content + "\n\"\"\"\n"@
}

/// One benchmark suite's registry entry: its display name and the enumeration
/// of the configurations it will exercise.
pub struct SuiteEntry {
    pub name: String,
    pub details: String,
}

/// The per-suite sections, in registry order.
pub open spec fn suite_sections_spec(suites: Seq<SuiteEntry>) -> Seq<char>
    decreases suites.len(),
{
    if suites.len() == 0 {
        Seq::<char>::empty()
    } else {
        suite_sections_spec(suites.drop_last()) + section_spec(
            suites.last().name@,
            suites.last().details@,
        )
    }
}

/// The whole metadata document: the overview section with the host facts,
/// then one section per registered suite.
pub open spec fn tables_content_spec(info: SystemInfo, suites: Seq<SuiteEntry>) -> Seq<char> {
    "[top_comments]\n"@ + section_spec(
        "Overview"@,
        "Burn micro benchmarks\n"@ + system_info_spec(info),
    ) + "[table_comments]\n"@ + suite_sections_spec(suites)
}

fn append_section(out: &mut String, name: &str, content: &str)
    ensures
        final(out)@ == old(out)@ + section_spec(name@, content@),
{
    out.append(name);
    out.append(" = \"\"\"\n");
    out.append(content);
    out.append("\n\"\"\"\n");
    proof {
        assert(out@ =~= old(out)@ + section_spec(name@, content@));
    }
}

/// Renders the whole metadata document from the given host facts and suite
/// entries.
pub fn tables_content(info: &SystemInfo, suites: &Vec<SuiteEntry>) -> (r: String)
    ensures
        r@ == tables_content_spec(*info, suites@),
{
    let mut r = String::from_str("[top_comments]\n");
    let mut overview = String::from_str("Burn micro benchmarks\n");
    let host = system_info_text(info);
    overview.append(host.as_str());
    append_section(&mut r, "Overview", overview.as_str());
    r.append("[table_comments]\n");
    let ghost head = r@;
    proof {
        assert(head =~= "[top_comments]\n"@ + section_spec(
            "Overview"@,
            "Burn micro benchmarks\n"@ + system_info_spec(*info),
        ) + "[table_comments]\n"@);
    }
    let mut i: usize = 0;
    while i < suites.len()
        invariant
            i <= suites.len(),
            head == "[top_comments]\n"@ + section_spec(
                "Overview"@,
                "Burn micro benchmarks\n"@ + system_info_spec(*info),
            ) + "[table_comments]\n"@,
            r@ == head + suite_sections_spec(suites@.take(i as int)),
        decreases suites.len() - i,
    {
        append_section(&mut r, suites[i].name.as_str(), suites[i].details.as_str());
        proof {
            let taken = suites@.take(i as int + 1);
            assert(taken.drop_last() =~= suites@.take(i as int));
            assert(taken.last() == suites@[i as int]);
            assert(r@ =~= head + suite_sections_spec(taken));
        }
        i = i + 1;
    }
    proof {
        assert(suites@.take(suites@.len() as int) =~= suites@);
    }
    r
}

} // verus!
