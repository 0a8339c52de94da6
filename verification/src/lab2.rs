//! Choices of the Hooke-Jeeves lab that depend on the selected objective.
use vstd::prelude::*;

verus! {

/// Number of variables of the selected objective: 2 for
/// `F1(x1, x2)`, 3 for `F2(x1, x2, x3)`, 2 for any other choice.
pub fn dimension(selected_func: usize) -> (d: usize)
    ensures
        d == (if selected_func == 1 { 3usize } else { 2usize }),
{
    match selected_func {
        0 => 2,
        1 => 3,
        _ => 2,
    }
}

/// The description of the selected objective.
pub fn func_name(selected_func: usize) -> (name: &'static str)
    ensures
        selected_func == 0 ==> name@ == "F1: -6x₁ - 4x₂ + x₁² + x₂² + 18"@,
        selected_func == 1 ==> name@ == "F2: 4x₁² + 3x₂² + x₃² + 4x₁x₂ - 2x₂x₃ - 16x₁ - 4x₃"@,
        selected_func >= 2 ==> name@ == "Unknown"@,
{
    match selected_func {
        0 => "F1: -6x₁ - 4x₂ + x₁² + x₂² + 18",
        1 => "F2: 4x₁² + 3x₂² + x₃² + 4x₁x₂ - 2x₂x₃ - 16x₁ - 4x₃",
        _ => "Unknown",
    }
}

} // verus!
