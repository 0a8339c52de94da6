use optimization_lab::export::export_steps;
use optimization_lab::lab1::{method_label, report_method_name, seeks_maximum, SearchMethod};
use optimization_lab::lab2::{dimension, func_name};
use optimization_lab::settings::{uses_dark_visuals, ColorTheme};

#[test]
fn export_every_second_step() {
    assert_eq!(export_steps(2, 7, 2, 5), vec![1, 3]);
    assert_eq!(export_steps(1, 10, 3, 10), vec![0, 3, 6, 9]);
}

#[test]
fn export_range_is_cut_at_history_end() {
    assert_eq!(export_steps(1, 100, 1, 3), vec![0, 1, 2]);
    assert_eq!(export_steps(0, 0, 1, 3), vec![0]);
}

#[test]
fn export_empty_when_start_after_end() {
    assert_eq!(export_steps(5, 2, 1, 10), Vec::<usize>::new());
    assert_eq!(export_steps(8, 9, 1, 3), Vec::<usize>::new());
}

#[test]
fn export_near_usize_max_does_not_overflow() {
    assert_eq!(export_steps(usize::MAX, usize::MAX, usize::MAX, usize::MAX), vec![usize::MAX - 1]);
    assert_eq!(export_steps(1, usize::MAX, usize::MAX - 1, usize::MAX), vec![0, usize::MAX - 1]);
}

#[test]
fn method_from_index() {
    assert_eq!(SearchMethod::from_index(0), Some(SearchMethod::Dichotomy));
    assert_eq!(SearchMethod::from_index(1), Some(SearchMethod::GoldenRatio));
    assert_eq!(SearchMethod::from_index(2), Some(SearchMethod::Fibonacci));
    assert_eq!(SearchMethod::from_index(3), None);
}

#[test]
fn first_objective_is_maximised() {
    assert!(seeks_maximum(0));
    assert!(!seeks_maximum(1));
}

#[test]
fn method_names() {
    assert_eq!(method_label(0), "Дихотомия");
    assert_eq!(method_label(1), "Золотое сечение");
    assert_eq!(method_label(2), "Фибоначчи");
    assert_eq!(method_label(9), "Фибоначчи");
    assert_eq!(report_method_name(0), "Дихотомический поиск");
    assert_eq!(report_method_name(1), "Метод Золотого сечения");
    assert_eq!(report_method_name(7), "Метод Фибоначчи");
}

#[test]
fn lab2_dimension_and_name() {
    assert_eq!(dimension(0), 2);
    assert_eq!(dimension(1), 3);
    assert_eq!(dimension(5), 2);
    assert_eq!(func_name(0), "F1: -6x₁ - 4x₂ + x₁² + x₂² + 18");
    assert_eq!(func_name(1), "F2: 4x₁² + 3x₂² + x₃² + 4x₁x₂ - 2x₂x₃ - 16x₁ - 4x₃");
    assert_eq!(func_name(2), "Unknown");
}

#[test]
fn auto_theme_is_light() {
    assert!(!uses_dark_visuals(ColorTheme::Light));
    assert!(uses_dark_visuals(ColorTheme::Dark));
    assert!(!uses_dark_visuals(ColorTheme::Auto));
}
