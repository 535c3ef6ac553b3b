use collision_plot::series::{Rgb, Series, SAMPLES, STROKE_WIDTH};

const ALL: [Series; 3] = [Series::Momentum, Series::EnergyUpper, Series::EnergyLower];

#[test]
fn every_series_is_evaluated_at_512_points() {
    assert_eq!(SAMPLES, 512);
    for series in ALL {
        assert_eq!(series.samples(), 512);
    }
}

#[test]
fn sample_count_leaves_room_for_both_ends_of_the_domain() {
    for series in ALL {
        assert!(series.samples() >= 2);
    }
}

#[test]
fn every_series_is_stroked_three_points_wide() {
    assert_eq!(STROKE_WIDTH, 3);
    for series in ALL {
        assert_eq!(series.stroke_width(), 3);
    }
}

#[test]
fn stroke_width_converts_to_the_plot_unit_exactly() {
    assert_eq!(f32::from(Series::Momentum.stroke_width()), 3.0_f32);
}

#[test]
fn momentum_is_red() {
    assert_eq!(Series::Momentum.colour(), Rgb { r: 255, g: 0, b: 0 });
}

#[test]
fn energy_is_blue() {
    assert_eq!(Series::EnergyUpper.colour(), Rgb { r: 0, g: 0, b: 255 });
    assert_eq!(Series::EnergyLower.colour(), Rgb { r: 0, g: 0, b: 255 });
}

#[test]
fn momentum_and_energy_differ_in_colour() {
    assert_ne!(Series::Momentum.colour(), Series::EnergyUpper.colour());
    assert_ne!(Series::Momentum.colour(), Series::EnergyLower.colour());
}

#[test]
fn legend_names() {
    assert_eq!(Series::Momentum.legend(), "States with preserved momentum");
    assert_eq!(Series::EnergyUpper.legend(), "States with preserved energy");
    assert_eq!(Series::EnergyLower.legend(), "States with preserved energy");
}

#[test]
fn energy_halves_are_drawn_alike() {
    let (upper, lower) = (Series::EnergyUpper, Series::EnergyLower);
    assert_eq!(upper.legend(), lower.legend());
    assert_eq!(upper.colour(), lower.colour());
    assert_eq!(upper.stroke_width(), lower.stroke_width());
    assert_eq!(upper.samples(), lower.samples());
}

#[test]
fn asking_twice_gives_the_same_answers() {
    for series in ALL {
        assert_eq!(series.samples(), series.samples());
        assert_eq!(series.colour(), series.colour());
        assert_eq!(series.legend(), series.legend());
        assert_eq!(series.stroke_width(), series.stroke_width());
    }
}
