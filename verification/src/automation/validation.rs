//! Validation of macro packs before anything runs.
//!
//! The checks run in a fixed order and the first failing one is reported,
//! naming the offending field by its path in the pack, such as
//! `macros[1].steps[0].max_bytes`.

use vstd::prelude::*;
use crate::automation::dsl::{
    decoding_of, AssemblyDefinition, AssemblyStep, MacroDefinition, MacroPack, MacroStep, SendStep,
};
use crate::automation::error::AutomationError;
use crate::automation::limits::max_bytes_error;
use crate::broker::max_bytes_complaint;
use crate::text::{append_decimal, blank, decimal, is_blank, str_eq};

verus! {

/// What validation found wrong: the field, and the rule's message (`None`
/// for data that does not decode, whose message comes from the decoder).
pub type Problem = (Seq<char>, Option<Seq<char>>);

/// The first problem among `f(0)`, ..., `f(n - 1)`.
pub open spec fn first_problem(f: spec_fn(nat) -> Option<Problem>, n: nat) -> Option<Problem>
    decreases n,
{
    if n == 0 {
        None
    } else {
        match first_problem(f, (n - 1) as nat) {
            Some(p) => Some(p),
            None => f((n - 1) as nat),
        }
    }
}

/// Once a problem is found, looking further does not change which one is first.
pub proof fn lemma_first_problem_stable(f: spec_fn(nat) -> Option<Problem>, a: nat, b: nat)
    requires
        a <= b,
        first_problem(f, a) is Some,
    ensures
        first_problem(f, b) == first_problem(f, a),
    decreases b,
{
    if b > a {
        lemma_first_problem_stable(f, a, (b - 1) as nat);
    }
}

/// Where no problem is found, none of the checked items has one.
pub proof fn lemma_no_first_problem(f: spec_fn(nat) -> Option<Problem>, n: nat)
    requires
        first_problem(f, n) is None,
    ensures
        forall|i: nat| i < n ==> #[trigger] f(i) is None,
    decreases n,
{
    if n > 0 {
        lemma_no_first_problem(f, (n - 1) as nat);
    }
}

/// Whether `e` reports problem `p`.
pub open spec fn reports(e: AutomationError, p: Problem) -> bool {
    match p.1 {
        Some(msg) => e matches AutomationError::Validation { field, message } && field@ == p.0 && message@ == msg,
        None => e matches AutomationError::Encoding { field, .. } && field@ == p.0,
    }
}

/// `macros[i]` followed by `tail`.
pub open spec fn at_macro(i: nat, tail: Seq<char>) -> Seq<char> {
    "macros["@ + decimal(i) + tail
}

/// `macros[i].steps[j].` followed by `tail`.
pub open spec fn at_step(i: nat, j: nat, tail: Seq<char>) -> Seq<char> {
    "macros["@ + decimal(i) + "].steps["@ + decimal(j) + "]."@ + tail
}

/// `assemblies[k]` followed by `tail`.
pub open spec fn at_assembly(k: nat, tail: Seq<char>) -> Seq<char> {
    "assemblies["@ + decimal(k) + tail
}

/// `assemblies[k].steps[j].name`.
pub open spec fn at_assembly_step(k: nat, j: nat) -> Seq<char> {
    "assemblies["@ + decimal(k) + "].steps["@ + decimal(j) + "].name"@
}

/// The problem of step `j` of macro `i`, if any.
pub open spec fn step_problem(step: MacroStep, i: nat, j: nat) -> Option<Problem> {
    match step {
        MacroStep::Send(s) => if decoding_of(s.encoding, s.data@) is None {
            Some((at_step(i, j, "data"@), None))
        } else {
            None
        },
        MacroStep::Delay(d) => if d.ms == 0 {
            Some((at_step(i, j, "ms"@), Some("delay must be greater than zero"@)))
        } else {
            None
        },
        MacroStep::Expect(e) => if decoding_of(e.encoding, e.data@) is None {
            Some((at_step(i, j, "data"@), None))
        } else if e.timeout_ms == 0 {
            Some((at_step(i, j, "timeout_ms"@), Some("timeout must be greater than zero"@)))
        } else if e.idle_ms == 0 {
            Some((at_step(i, j, "idle_ms"@), Some("idle boundary must be greater than zero"@)))
        } else if max_bytes_complaint(e.max_bytes) is Some {
            Some((at_step(i, j, "max_bytes"@), max_bytes_complaint(e.max_bytes)))
        } else {
            None
        },
    }
}

/// The step problems of macro `i`, by step position.
pub open spec fn step_problems(steps: Seq<MacroStep>, i: nat) -> spec_fn(nat) -> Option<Problem> {
    |j: nat| step_problem(steps[j as int], i, j)
}

/// Whether some macro of the pack has this name.
pub open spec fn is_macro_name(macros: Seq<MacroDefinition>, name: Seq<char>) -> bool {
    exists|i: int| 0 <= i < macros.len() && #[trigger] macros[i].name@ == name
}

/// The problem of macro `i`, if any: a blank name, a name used by an
/// earlier macro, no steps, or a problem of one of its steps.
pub open spec fn macro_problem(macros: Seq<MacroDefinition>, i: nat) -> Option<Problem> {
    let m = macros[i as int];
    if is_blank(m.name@) {
        Some((at_macro(i, "].name"@), Some("value must not be empty"@)))
    } else if exists|j: int| 0 <= j < i && #[trigger] macros[j].name@ == m.name@ {
        Some((at_macro(i, "].name"@), Some("duplicate macro name "@ + m.name@)))
    } else if m.steps@.len() == 0 {
        Some((at_macro(i, "].steps"@), Some("macro steps must not be empty"@)))
    } else {
        first_problem(step_problems(m.steps@, i), m.steps@.len())
    }
}

/// The macro problems of a pack, by macro position.
pub open spec fn macro_problems(macros: Seq<MacroDefinition>) -> spec_fn(nat) -> Option<Problem> {
    |i: nat| macro_problem(macros, i)
}

/// The problem of step `j` of assembly `k`, if any: a call of a macro the
/// pack does not define.
pub open spec fn call_problem(step: AssemblyStep, macros: Seq<MacroDefinition>, k: nat, j: nat) -> Option<Problem> {
    match step {
        AssemblyStep::Macro(call) => if is_macro_name(macros, call.name@) {
            None
        } else {
            Some((at_assembly_step(k, j), Some("unknown macro reference "@ + call.name@)))
        },
    }
}

/// The call problems of assembly `k`, by step position.
pub open spec fn call_problems(steps: Seq<AssemblyStep>, macros: Seq<MacroDefinition>, k: nat) -> spec_fn(nat) -> Option<Problem> {
    |j: nat| call_problem(steps[j as int], macros, k, j)
}

/// The problem of assembly `k`, if any: a blank name, the name of a macro,
/// a name used by an earlier assembly, no steps, or an unknown macro call.
pub open spec fn assembly_problem(macros: Seq<MacroDefinition>, assemblies: Seq<AssemblyDefinition>, k: nat) -> Option<Problem> {
    let a = assemblies[k as int];
    if is_blank(a.name@) {
        Some((at_assembly(k, "].name"@), Some("value must not be empty"@)))
    } else if is_macro_name(macros, a.name@) {
        Some((at_assembly(k, "].name"@), Some("assembly name "@ + a.name@ + " conflicts with a macro"@)))
    } else if exists|j: int| 0 <= j < k && #[trigger] assemblies[j].name@ == a.name@ {
        Some((at_assembly(k, "].name"@), Some("duplicate assembly name "@ + a.name@)))
    } else if a.steps@.len() == 0 {
        Some((at_assembly(k, "].steps"@), Some("assembly steps must not be empty"@)))
    } else {
        first_problem(call_problems(a.steps@, macros, k), a.steps@.len())
    }
}

/// The assembly problems of a pack, by assembly position.
pub open spec fn assembly_problems(macros: Seq<MacroDefinition>, assemblies: Seq<AssemblyDefinition>) -> spec_fn(nat) -> Option<Problem> {
    |k: nat| assembly_problem(macros, assemblies, k)
}

/// The first problem of a pack: its name, its schema version, its macros
/// (there must be one), then its macros in order, then its assemblies in
/// order.
pub open spec fn pack_problem(pack: MacroPack) -> Option<Problem> {
    if is_blank(pack.name@) {
        Some(("name"@, Some("value must not be empty"@)))
    } else if pack.schema_version@ != "0.3"@ {
        Some(("schema_version"@, Some("expected schema version 0.3"@)))
    } else if pack.macros@.len() == 0 {
        Some(("macros"@, Some("at least one macro is required"@)))
    } else if first_problem(macro_problems(pack.macros@), pack.macros@.len()) is Some {
        first_problem(macro_problems(pack.macros@), pack.macros@.len())
    } else {
        first_problem(assembly_problems(pack.macros@, pack.assemblies@), pack.assemblies@.len())
    }
}

/// The targets a valid pack offers.
#[derive(Debug, Clone)]
pub struct MacroInventory {
    pub schema_version: String,
    pub name: String,
    pub macros: Vec<String>,
    pub assemblies: Vec<String>,
}

/// Whether `inv` lists the pack's version, name, macro names and assembly
/// names, in pack order.
pub open spec fn inventory_of(pack: MacroPack, inv: MacroInventory) -> bool {
    &&& inv.schema_version@ == pack.schema_version@
    &&& inv.name@ == pack.name@
    &&& inv.macros@.len() == pack.macros@.len()
    &&& forall|i: int| 0 <= i < inv.macros@.len() ==> #[trigger] inv.macros@[i]@ == pack.macros@[i].name@
    &&& inv.assemblies@.len() == pack.assemblies@.len()
    &&& forall|i: int| 0 <= i < inv.assemblies@.len() ==> #[trigger] inv.assemblies@[i]@ == pack.assemblies@[i].name@
}

fn macro_field(i: usize, tail: &str) -> (r: String)
    ensures
        r@ == at_macro(i as nat, tail@),
{
    let mut s = String::from_str("macros[");
    append_decimal(&mut s, i as u64);
    s.append(tail);
    s
}

fn step_field(i: usize, j: usize, tail: &str) -> (r: String)
    ensures
        r@ == at_step(i as nat, j as nat, tail@),
{
    let mut s = String::from_str("macros[");
    append_decimal(&mut s, i as u64);
    s.append("].steps[");
    append_decimal(&mut s, j as u64);
    s.append("].");
    s.append(tail);
    s
}

fn assembly_field(k: usize, tail: &str) -> (r: String)
    ensures
        r@ == at_assembly(k as nat, tail@),
{
    let mut s = String::from_str("assemblies[");
    append_decimal(&mut s, k as u64);
    s.append(tail);
    s
}

fn assembly_step_field(k: usize, j: usize) -> (r: String)
    ensures
        r@ == at_assembly_step(k as nat, j as nat),
{
    let mut s = String::from_str("assemblies[");
    append_decimal(&mut s, k as u64);
    s.append("].steps[");
    append_decimal(&mut s, j as u64);
    s.append("].name");
    s
}

fn rule(field: String, message: &str) -> (r: AutomationError)
    ensures
        r matches AutomationError::Validation { field: f, message: m } && f == field && m@ == message@,
{
    AutomationError::validation(field, String::from_str(message))
}

/// Refuses a blank value of `field`.
pub fn require_non_empty(field: &str, value: &str) -> (r: Result<(), AutomationError>)
    ensures
        r is Ok <==> !is_blank(value@),
        r matches Err(e) ==> reports(e, (field@, Some("value must not be empty"@))),
{
    if blank(value) {
        return Err(rule(String::from_str(field), "value must not be empty"));
    }
    Ok(())
}

/// Checks the data of send step `j` of macro `i`.
pub fn validate_send_step(macro_index: usize, step_index: usize, step: &SendStep) -> (r: Result<(), AutomationError>)
    ensures
        r is Ok <==> step_problem(MacroStep::Send(*step), macro_index as nat, step_index as nat) is None,
        r matches Err(e) ==> reports(e, step_problem(MacroStep::Send(*step), macro_index as nat, step_index as nat)->0),
{
    let field = step_field(macro_index, step_index, "data");
    match step.encoding.decode(step.data.as_str(), field.as_str()) {
        Ok(_) => Ok(()),
        Err(e) => Err(e),
    }
}

fn validate_step(macro_index: usize, step_index: usize, step: &MacroStep) -> (r: Result<(), AutomationError>)
    ensures
        r is Ok <==> step_problem(*step, macro_index as nat, step_index as nat) is None,
        r matches Err(e) ==> reports(e, step_problem(*step, macro_index as nat, step_index as nat)->0),
{
    match step {
        MacroStep::Send(s) => validate_send_step(macro_index, step_index, s),
        MacroStep::Delay(d) => {
            if d.ms == 0 {
                return Err(rule(step_field(macro_index, step_index, "ms"), "delay must be greater than zero"));
            }
            Ok(())
        },
        MacroStep::Expect(e) => {
            let field = step_field(macro_index, step_index, "data");
            match e.encoding.decode(e.data.as_str(), field.as_str()) {
                Ok(_) => {},
                Err(err) => return Err(err),
            }
            if e.timeout_ms == 0 {
                return Err(rule(step_field(macro_index, step_index, "timeout_ms"), "timeout must be greater than zero"));
            }
            if e.idle_ms == 0 {
                return Err(rule(step_field(macro_index, step_index, "idle_ms"), "idle boundary must be greater than zero"));
            }
            match max_bytes_error(e.max_bytes) {
                Some(message) => Err(AutomationError::validation(step_field(macro_index, step_index, "max_bytes"), message)),
                None => Ok(()),
            }
        },
    }
}

/// Checks the steps of macro `i` in order.
pub fn validate_macro_steps(macro_index: usize, steps: &Vec<MacroStep>) -> (r: Result<(), AutomationError>)
    ensures
        r is Ok <==> first_problem(step_problems(steps@, macro_index as nat), steps@.len()) is None,
        r matches Err(e) ==> reports(e, first_problem(step_problems(steps@, macro_index as nat), steps@.len())->0),
{
    let ghost f = step_problems(steps@, macro_index as nat);
    let mut j: usize = 0;
    while j < steps.len()
        invariant
            j <= steps.len(),
            f == step_problems(steps@, macro_index as nat),
            first_problem(f, j as nat) is None,
        decreases steps.len() - j,
    {
        match validate_step(macro_index, j, &steps[j]) {
            Ok(()) => {},
            Err(e) => {
                proof {
                    assert(first_problem(f, (j + 1) as nat) == f(j as nat));
                    lemma_first_problem_stable(f, (j + 1) as nat, steps@.len());
                }
                return Err(e);
            },
        }
        j = j + 1;
    }
    Ok(())
}

fn is_macro_name_exec(macros: &Vec<MacroDefinition>, name: &str) -> (r: bool)
    ensures
        r == is_macro_name(macros@, name@),
{
    let mut i: usize = 0;
    while i < macros.len()
        invariant
            i <= macros.len(),
            forall|j: int| 0 <= j < i ==> #[trigger] macros@[j].name@ != name@,
        decreases macros.len() - i,
    {
        if str_eq(macros[i].name.as_str(), name) {
            return true;
        }
        i = i + 1;
    }
    false
}

/// Checks that every step of assembly `k` calls a macro of the pack.
pub fn validate_assembly_steps(assembly_index: usize, steps: &Vec<AssemblyStep>, macros: &Vec<MacroDefinition>) -> (r: Result<(), AutomationError>)
    ensures
        r is Ok <==> first_problem(call_problems(steps@, macros@, assembly_index as nat), steps@.len()) is None,
        r matches Err(e) ==> reports(e, first_problem(call_problems(steps@, macros@, assembly_index as nat), steps@.len())->0),
{
    let ghost f = call_problems(steps@, macros@, assembly_index as nat);
    let mut j: usize = 0;
    while j < steps.len()
        invariant
            j <= steps.len(),
            f == call_problems(steps@, macros@, assembly_index as nat),
            first_problem(f, j as nat) is None,
        decreases steps.len() - j,
    {
        match &steps[j] {
            AssemblyStep::Macro(call) => {
                if !is_macro_name_exec(macros, call.name.as_str()) {
                    let mut message = String::from_str("unknown macro reference ");
                    message.append(call.name.as_str());
                    proof {
                        assert(first_problem(f, (j + 1) as nat) == f(j as nat));
                        lemma_first_problem_stable(f, (j + 1) as nat, steps@.len());
                    }
                    return Err(AutomationError::validation(assembly_step_field(assembly_index, j), message));
                }
            },
        }
        j = j + 1;
    }
    Ok(())
}

fn name_used_before(macros: &Vec<MacroDefinition>, i: usize) -> (r: bool)
    requires
        i < macros@.len(),
    ensures
        r == exists|j: int| 0 <= j < i && #[trigger] macros@[j].name@ == macros@[i as int].name@,
{
    let mut j: usize = 0;
    while j < i
        invariant
            i < macros@.len(),
            j <= i,
            forall|k: int| 0 <= k < j ==> #[trigger] macros@[k].name@ != macros@[i as int].name@,
        decreases i - j,
    {
        if str_eq(macros[j].name.as_str(), macros[i].name.as_str()) {
            return true;
        }
        j = j + 1;
    }
    false
}

fn assembly_name_used_before(assemblies: &Vec<AssemblyDefinition>, k: usize) -> (r: bool)
    requires
        k < assemblies@.len(),
    ensures
        r == exists|j: int| 0 <= j < k && #[trigger] assemblies@[j].name@ == assemblies@[k as int].name@,
{
    let mut j: usize = 0;
    while j < k
        invariant
            k < assemblies@.len(),
            j <= k,
            forall|x: int| 0 <= x < j ==> #[trigger] assemblies@[x].name@ != assemblies@[k as int].name@,
        decreases k - j,
    {
        if str_eq(assemblies[j].name.as_str(), assemblies[k].name.as_str()) {
            return true;
        }
        j = j + 1;
    }
    false
}

fn validate_macro(macros: &Vec<MacroDefinition>, i: usize) -> (r: Result<(), AutomationError>)
    requires
        i < macros@.len(),
    ensures
        r is Ok <==> macro_problem(macros@, i as nat) is None,
        r matches Err(e) ==> reports(e, macro_problem(macros@, i as nat)->0),
{
    let m = &macros[i];
    if blank(m.name.as_str()) {
        return Err(rule(macro_field(i, "].name"), "value must not be empty"));
    }
    if name_used_before(macros, i) {
        let mut message = String::from_str("duplicate macro name ");
        message.append(m.name.as_str());
        return Err(AutomationError::validation(macro_field(i, "].name"), message));
    }
    if m.steps.len() == 0 {
        return Err(rule(macro_field(i, "].steps"), "macro steps must not be empty"));
    }
    validate_macro_steps(i, &m.steps)
}

fn validate_assembly(macros: &Vec<MacroDefinition>, assemblies: &Vec<AssemblyDefinition>, k: usize) -> (r: Result<(), AutomationError>)
    requires
        k < assemblies@.len(),
    ensures
        r is Ok <==> assembly_problem(macros@, assemblies@, k as nat) is None,
        r matches Err(e) ==> reports(e, assembly_problem(macros@, assemblies@, k as nat)->0),
{
    let a = &assemblies[k];
    if blank(a.name.as_str()) {
        return Err(rule(assembly_field(k, "].name"), "value must not be empty"));
    }
    if is_macro_name_exec(macros, a.name.as_str()) {
        let mut message = String::from_str("assembly name ");
        message.append(a.name.as_str());
        message.append(" conflicts with a macro");
        return Err(AutomationError::validation(assembly_field(k, "].name"), message));
    }
    if assembly_name_used_before(assemblies, k) {
        let mut message = String::from_str("duplicate assembly name ");
        message.append(a.name.as_str());
        return Err(AutomationError::validation(assembly_field(k, "].name"), message));
    }
    if a.steps.len() == 0 {
        return Err(rule(assembly_field(k, "].steps"), "assembly steps must not be empty"));
    }
    validate_assembly_steps(k, &a.steps, macros)
}

/// Validates a macro pack and lists what it offers. The first problem found
/// (see `pack_problem`) is reported; a pack without problems yields its
/// inventory.
pub fn validate_pack(pack: &MacroPack) -> (r: Result<MacroInventory, AutomationError>)
    ensures
        r is Ok <==> pack_problem(*pack) is None,
        r matches Err(e) ==> reports(e, pack_problem(*pack)->0),
        r matches Ok(inv) ==> inventory_of(*pack, inv),
{
    match require_non_empty("name", pack.name.as_str()) {
        Ok(()) => {},
        Err(e) => return Err(e),
    }
    if !str_eq(pack.schema_version.as_str(), "0.3") {
        return Err(rule(String::from_str("schema_version"), "expected schema version 0.3"));
    }
    if pack.macros.len() == 0 {
        return Err(rule(String::from_str("macros"), "at least one macro is required"));
    }
    let ghost fm = macro_problems(pack.macros@);
    let mut i: usize = 0;
    while i < pack.macros.len()
        invariant
            i <= pack.macros.len(),
            fm == macro_problems(pack.macros@),
            first_problem(fm, i as nat) is None,
            !is_blank(pack.name@),
            pack.schema_version@ == "0.3"@,
            pack.macros@.len() > 0,
        decreases pack.macros.len() - i,
    {
        match validate_macro(&pack.macros, i) {
            Ok(()) => {},
            Err(e) => {
                proof {
                    assert(first_problem(fm, (i + 1) as nat) == fm(i as nat));
                    lemma_first_problem_stable(fm, (i + 1) as nat, pack.macros@.len());
                }
                return Err(e);
            },
        }
        i = i + 1;
    }
    let ghost fa = assembly_problems(pack.macros@, pack.assemblies@);
    let mut k: usize = 0;
    while k < pack.assemblies.len()
        invariant
            k <= pack.assemblies.len(),
            fa == assembly_problems(pack.macros@, pack.assemblies@),
            first_problem(fa, k as nat) is None,
            first_problem(fm, pack.macros@.len()) is None,
            fm == macro_problems(pack.macros@),
            !is_blank(pack.name@),
            pack.schema_version@ == "0.3"@,
            pack.macros@.len() > 0,
        decreases pack.assemblies.len() - k,
    {
        match validate_assembly(&pack.macros, &pack.assemblies, k) {
            Ok(()) => {},
            Err(e) => {
                proof {
                    assert(first_problem(fa, (k + 1) as nat) == fa(k as nat));
                    lemma_first_problem_stable(fa, (k + 1) as nat, pack.assemblies@.len());
                }
                return Err(e);
            },
        }
        k = k + 1;
    }
    let mut macros: Vec<String> = Vec::new();
    let mut i: usize = 0;
    while i < pack.macros.len()
        invariant
            i <= pack.macros.len(),
            macros@.len() == i,
            forall|j: int| 0 <= j < i ==> #[trigger] macros@[j]@ == pack.macros@[j].name@,
        decreases pack.macros.len() - i,
    {
        macros.push(pack.macros[i].name.clone());
        i = i + 1;
    }
    let mut assemblies: Vec<String> = Vec::new();
    let mut k: usize = 0;
    while k < pack.assemblies.len()
        invariant
            k <= pack.assemblies.len(),
            assemblies@.len() == k,
            forall|j: int| 0 <= j < k ==> #[trigger] assemblies@[j]@ == pack.assemblies@[j].name@,
        decreases pack.assemblies.len() - k,
    {
        assemblies.push(pack.assemblies[k].name.clone());
        k = k + 1;
    }
    Ok(MacroInventory {
        schema_version: pack.schema_version.clone(),
        name: pack.name.clone(),
        macros,
        assemblies,
    })
}

/// A pack that passes validation is safe to plan from: it has at least one
/// macro; every macro and assembly has a non-blank name and at least one
/// step; no two macros and no two assemblies share a name, and no assembly
/// takes a macro's name; and every step of an assembly calls a macro the
/// pack defines.
pub proof fn law_valid_pack_targets_resolve(pack: MacroPack)
    requires
        pack_problem(pack) is None,
    ensures
        pack.macros@.len() > 0,
        forall|i: int| 0 <= i < pack.macros@.len() ==> !is_blank(#[trigger] pack.macros@[i].name@)
            && pack.macros@[i].steps@.len() > 0,
        forall|i: int, j: int| 0 <= i < j < pack.macros@.len()
            ==> #[trigger] pack.macros@[i].name@ != #[trigger] pack.macros@[j].name@,
        forall|k: int| 0 <= k < pack.assemblies@.len() ==> !is_blank(#[trigger] pack.assemblies@[k].name@)
            && !is_macro_name(pack.macros@, pack.assemblies@[k].name@)
            && pack.assemblies@[k].steps@.len() > 0,
        forall|k: int, l: int| 0 <= k < l < pack.assemblies@.len()
            ==> #[trigger] pack.assemblies@[k].name@ != #[trigger] pack.assemblies@[l].name@,
        forall|k: int, j: int| 0 <= k < pack.assemblies@.len() && 0 <= j < pack.assemblies@[k].steps@.len()
            ==> (#[trigger] pack.assemblies@[k].steps@[j] matches AssemblyStep::Macro(call)
                && is_macro_name(pack.macros@, call.name@)),
{
    let ms = pack.macros@;
    let assemblies = pack.assemblies@;
    lemma_no_first_problem(macro_problems(ms), ms.len());
    lemma_no_first_problem(assembly_problems(ms, assemblies), assemblies.len());
    assert forall|i: int| 0 <= i < ms.len() implies !is_blank(#[trigger] ms[i].name@) && ms[i].steps@.len() > 0 by {
        assert(macro_problems(ms)(i as nat) is None);
    }
    assert forall|i: int, j: int| 0 <= i < j < ms.len() implies #[trigger] ms[i].name@ != #[trigger] ms[j].name@ by {
        assert(macro_problems(ms)(j as nat) is None);
    }
    assert forall|k: int| 0 <= k < assemblies.len() implies !is_blank(#[trigger] assemblies[k].name@)
        && !is_macro_name(ms, assemblies[k].name@) && assemblies[k].steps@.len() > 0 by {
        assert(assembly_problems(ms, assemblies)(k as nat) is None);
    }
    assert forall|k: int, l: int| 0 <= k < l < assemblies.len() implies #[trigger] assemblies[k].name@ != #[trigger] assemblies[l].name@ by {
        assert(assembly_problems(ms, assemblies)(l as nat) is None);
    }
    assert forall|k: int, j: int| 0 <= k < assemblies.len() && 0 <= j < assemblies[k].steps@.len()
        implies (#[trigger] assemblies[k].steps@[j] matches AssemblyStep::Macro(call) && is_macro_name(ms, call.name@)) by {
        assert(assembly_problems(ms, assemblies)(k as nat) is None);
        let steps = assemblies[k].steps@;
        lemma_no_first_problem(call_problems(steps, ms, k as nat), steps.len());
        assert(call_problems(steps, ms, k as nat)(j as nat) is None);
    }
}

/// Every step of a pack that passes validation can be carried out: the data
/// of each send and each expect step decodes in its encoding; every delay is
/// positive; every expect step waits a positive time, has a positive idle
/// boundary, and reads between one and `MAX_READ_BYTES` bytes. So a pack in
/// which some step's data does not decode, or some limit is out of range,
/// is refused.
pub proof fn law_valid_pack_steps_can_run(pack: MacroPack)
    requires
        pack_problem(pack) is None,
    ensures
        forall|i: int, j: int| 0 <= i < pack.macros@.len() && 0 <= j < pack.macros@[i].steps@.len()
            ==> match #[trigger] pack.macros@[i].steps@[j] {
                MacroStep::Send(s) => decoding_of(s.encoding, s.data@) is Some,
                MacroStep::Delay(d) => d.ms > 0,
                MacroStep::Expect(e) => {
                    &&& decoding_of(e.encoding, e.data@) is Some
                    &&& e.timeout_ms > 0
                    &&& e.idle_ms > 0
                    &&& 1 <= e.max_bytes <= crate::broker::MAX_READ_BYTES
                },
            },
{
    let ms = pack.macros@;
    lemma_no_first_problem(macro_problems(ms), ms.len());
    assert forall|i: int, j: int| 0 <= i < ms.len() && 0 <= j < ms[i].steps@.len()
        implies match #[trigger] ms[i].steps@[j] {
            MacroStep::Send(s) => decoding_of(s.encoding, s.data@) is Some,
            MacroStep::Delay(d) => d.ms > 0,
            MacroStep::Expect(e) => {
                &&& decoding_of(e.encoding, e.data@) is Some
                &&& e.timeout_ms > 0
                &&& e.idle_ms > 0
                &&& 1 <= e.max_bytes <= crate::broker::MAX_READ_BYTES
            },
        } by {
        assert(macro_problems(ms)(i as nat) is None);
        let steps = ms[i].steps@;
        lemma_no_first_problem(step_problems(steps, i as nat), steps.len());
        assert(step_problems(steps, i as nat)(j as nat) is None);
    }
}

/// Where none of `f(0)`, ..., `f(m - 1)` is a problem and `f(m)` is one,
/// `f(m)` is the first problem among any `n > m` items.
pub proof fn lemma_first_problem_at(f: spec_fn(nat) -> Option<Problem>, m: nat, n: nat)
    requires
        m < n,
        forall|k: nat| k < m ==> #[trigger] f(k) is None,
        f(m) is Some,
    ensures
        first_problem(f, n) == f(m),
{
    lemma_nothing_first(f, m);
    assert(first_problem(f, m + 1) == f(m));
    lemma_first_problem_stable(f, m + 1, n);
}

/// Where none of `f(0)`, ..., `f(m - 1)` is a problem, none is found first.
pub proof fn lemma_nothing_first(f: spec_fn(nat) -> Option<Problem>, m: nat)
    requires
        forall|k: nat| k < m ==> #[trigger] f(k) is None,
    ensures
        first_problem(f, m) is None,
    decreases m,
{
    if m > 0 {
        lemma_nothing_first(f, (m - 1) as nat);
        assert(f((m - 1) as nat) is None);
    }
}

/// Expect data that does not decode is reported where it stands: when the
/// pack's name and schema version are fine, the macros before macro `i`
/// have no problem, macro `i` has a fresh non-blank name, and the steps of
/// macro `i` before step `j` have no problem, an expect step `j` whose data
/// does not decode in its encoding makes the pack's first problem an
/// encoding error at `macros[i].steps[j].data`.
pub proof fn law_undecodable_expect_data_is_reported(pack: MacroPack, i: nat, j: nat)
    requires
        !is_blank(pack.name@),
        pack.schema_version@ == "0.3"@,
        i < pack.macros@.len(),
        forall|k: nat| k < i ==> #[trigger] macro_problem(pack.macros@, k) is None,
        !is_blank(pack.macros@[i as int].name@),
        forall|k: int| 0 <= k < i ==> #[trigger] pack.macros@[k].name@ != pack.macros@[i as int].name@,
        j < pack.macros@[i as int].steps@.len(),
        forall|l: nat| l < j ==> #[trigger] step_problem(pack.macros@[i as int].steps@[l as int], i, l) is None,
        pack.macros@[i as int].steps@[j as int] matches MacroStep::Expect(e)
            && decoding_of(e.encoding, e.data@) is None,
    ensures
        pack_problem(pack) == Some((at_step(i, j, "data"@), None::<Seq<char>>)),
{
    let ms = pack.macros@;
    let steps = ms[i as int].steps@;
    let fs = step_problems(steps, i);
    assert forall|l: nat| l < j implies #[trigger] fs(l) is None by {
        assert(step_problem(steps[l as int], i, l) is None);
    }
    lemma_first_problem_at(fs, j, steps.len());
    assert(!(exists|k: int| 0 <= k < i && #[trigger] ms[k].name@ == ms[i as int].name@));
    let fm = macro_problems(ms);
    assert forall|k: nat| k < i implies #[trigger] fm(k) is None by {
        assert(macro_problem(ms, k) is None);
    }
    assert(fm(i) == Some((at_step(i, j, "data"@), None::<Seq<char>>)));
    lemma_first_problem_at(fm, i, ms.len());
}

} // verus!
