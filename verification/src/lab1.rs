//! Choices of the one-dimensional search lab: which objective, whether it is
//! maximised, which method, and what the method is called.
use vstd::prelude::*;

verus! {

/// The one-dimensional search methods, in the order of the method selector.
#[derive(Clone, Copy, Debug, PartialEq, Eq, Structural)]
pub enum SearchMethod {
    Dichotomy,
    GoldenRatio,
    Fibonacci,
}

impl SearchMethod {
    /// The method at a position of the selector, if there is one.
    pub fn from_index(selected_method: usize) -> (m: Option<SearchMethod>)
        ensures
            selected_method == 0 ==> m == Some(SearchMethod::Dichotomy),
            selected_method == 1 ==> m == Some(SearchMethod::GoldenRatio),
            selected_method == 2 ==> m == Some(SearchMethod::Fibonacci),
            selected_method > 2 ==> m is None,
    {
        match selected_method {
            0 => Some(SearchMethod::Dichotomy),
            1 => Some(SearchMethod::GoldenRatio),
            2 => Some(SearchMethod::Fibonacci),
            _ => None,
        }
    }
}

/// The first objective, `3x - x³`, is maximised; the second,
/// `(9 - x²)/(x² + 2x + 3)`, is minimised.
pub fn seeks_maximum(selected_func: usize) -> (is_max: bool)
    ensures
        is_max == (selected_func == 0),
{
    selected_func == 0
}

/// The short name of a method, as the selector and the text report show it.
pub fn method_label(selected_method: usize) -> (name: &'static str)
    ensures
        selected_method == 0 ==> name@ == "Дихотомия"@,
        selected_method == 1 ==> name@ == "Золотое сечение"@,
        selected_method >= 2 ==> name@ == "Фибоначчи"@,
{
    match selected_method {
        0 => "Дихотомия",
        1 => "Золотое сечение",
        _ => "Фибоначчи",
    }
}

/// The full name of a method, as the title of the Word report shows it.
pub fn report_method_name(selected_method: usize) -> (name: &'static str)
    ensures
        selected_method == 0 ==> name@ == "Дихотомический поиск"@,
        selected_method == 1 ==> name@ == "Метод Золотого сечения"@,
        selected_method >= 2 ==> name@ == "Метод Фибоначчи"@,
{
    match selected_method {
        0 => "Дихотомический поиск",
        1 => "Метод Золотого сечения",
        _ => "Метод Фибоначчи",
    }
}

} // verus!
