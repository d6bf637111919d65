use katas::rover::location::Location;
use katas::rover::navigator::{EastNavigator, Navigator, NorthNavigator, SouthNavigator, WestNavigator};
use katas::rover::{Command, Rover};

#[test]
fn creates_rover_at_initial_position() {
    let rover = Rover::default();
    assert_eq!(rover.format_position(), "0:0:N");
}

#[test]
fn turns_left() {
    let rover = Rover::default().execute(vec![Command::L]);

    assert_eq!(rover.format_position(), "0:0:W");
}

#[test]
fn turns_right() {
    let rover = Rover::default().execute(vec![Command::R]);

    assert_eq!(rover.format_position(), "0:0:E");
}

#[test]
fn moves_forward() {
    let rover = Rover::default().execute(vec![Command::F]);

    assert_eq!(rover.format_position(), "0:1:N");
}

#[test]
fn moves_forward_twice_to_the_right() {
    let rover = Rover::default().execute(vec![Command::R, Command::F, Command::F]);

    assert_eq!(rover.format_position(), "2:0:E");
}

#[test]
fn turns_twice_right() {
    let rover = Rover::default().execute(vec![Command::R, Command::R]);

    assert_eq!(rover.format_position(), "0:0:S");
}

#[test]
fn turns_twice_left() {
    let rover = Rover::default().execute(vec![Command::L, Command::L]);

    assert_eq!(rover.format_position(), "0:0:S");
}

#[test]
fn executes_many_commands() {
    let rover = Rover::default().execute(vec![Command::R, Command::F, Command::F]);

    assert_eq!(rover.format_position(), "2:0:E");
}

#[test]
fn rounds_on_horizontal_edges() {
    let rover = Rover::default().execute(vec![Command::L, Command::F, Command::F]);

    assert_eq!(rover.format_position(), "8:0:W");
}

#[test]
fn rounds_on_vertical_edges() {
    let rover = Rover::default().execute(vec![Command::L, Command::L, Command::F, Command::F]);

    assert_eq!(rover.format_position(), "0:8:S");
}

#[test]
fn executing_keeps_the_starting_rover() {
    let rover = Rover::default().execute(vec![Command::F]);
    let moved = rover.execute(vec![Command::R, Command::F]);

    assert_eq!(rover.format_position(), "0:1:N");
    assert_eq!(moved.format_position(), "1:1:E");
    assert_eq!(moved.execute(vec![]).format_position(), "1:1:E");
}

#[test]
fn creates_a_location_with_initial_values() {
    let location = Location::create(0, 0);

    assert_eq!(location.to_string(), "0:0");
}

#[test]
fn increases_x() {
    let location = Location::create(0, 0);

    assert_eq!(location.increase_x().to_string(), "1:0");
}

#[test]
fn decreases_x() {
    let location = Location::create(1, 0);

    assert_eq!(location.decrease_x().to_string(), "0:0");
}

#[test]
fn increases_y() {
    let location = Location::create(0, 0);

    assert_eq!(location.increase_y().to_string(), "0:1");
}

#[test]
fn decreases_y() {
    let location = Location::create(0, 1);

    assert_eq!(location.decrease_y().to_string(), "0:0");
}

#[test]
fn rounds_x_on_edges() {
    assert_eq!(Location::create(0, 0).decrease_x().to_string(), "9:0");
    assert_eq!(Location::create(9, 0).increase_x().to_string(), "0:0");
}

#[test]
fn rounds_y_on_edges() {
    assert_eq!(Location::create(0, 0).decrease_y().to_string(), "0:9");
    assert_eq!(Location::create(0, 9).increase_y().to_string(), "0:0");
}

#[test]
fn negative_coordinates_keep_their_sign() {
    assert_eq!(Location::create(-3, 12).to_string(), "-3:12");
    assert_eq!(Location::create(-3, 12).increase_x().to_string(), "-2:12");
    assert_eq!(Location::create(-3, 12).increase_y().to_string(), "-3:3");
}

#[test]
fn west_to_left() {
    let navigator = NorthNavigator {
        location: Location::create(0, 0),
    }
    .rotate_left();

    assert_eq!(navigator.format(), "0:0:W")
}

#[test]
fn east_to_right() {
    let navigator = NorthNavigator {
        location: Location::create(0, 0),
    }
    .rotate_right();

    assert_eq!(navigator.format(), "0:0:E")
}

#[test]
fn move_forward_increases_y() {
    let navigator = NorthNavigator {
        location: Location::create(0, 0),
    }
    .move_forward();

    assert_eq!(navigator.format(), "0:1:N")
}

#[test]
fn north_to_left() {
    let navigator = EastNavigator {
        location: Location::create(0, 0),
    }
    .rotate_left();

    assert_eq!(navigator.format(), "0:0:N")
}

#[test]
fn south_to_right() {
    let navigator = EastNavigator {
        location: Location::create(0, 0),
    }
    .rotate_right();

    assert_eq!(navigator.format(), "0:0:S")
}

#[test]
fn move_forward_increases_x() {
    let navigator = EastNavigator {
        location: Location::create(0, 0),
    }
    .move_forward();

    assert_eq!(navigator.format(), "1:0:E")
}

#[test]
fn east_to_left() {
    let navigator = SouthNavigator {
        location: Location::create(0, 0),
    }
    .rotate_left();

    assert_eq!(navigator.format(), "0:0:E")
}

#[test]
fn west_to_right() {
    let navigator = SouthNavigator {
        location: Location::create(0, 0),
    }
    .rotate_right();

    assert_eq!(navigator.format(), "0:0:W")
}

#[test]
fn move_forward_decreases_y() {
    let navigator = SouthNavigator {
        location: Location::create(0, 0),
    }
    .move_forward();

    assert_eq!(navigator.format(), "0:9:S")
}

#[test]
fn south_to_left() {
    let navigator = WestNavigator {
        location: Location::create(0, 0),
    }
    .rotate_left();

    assert_eq!(navigator.format(), "0:0:S")
}

#[test]
fn north_to_right() {
    let navigator = WestNavigator {
        location: Location::create(0, 0),
    }
    .rotate_right();

    assert_eq!(navigator.format(), "0:0:N")
}

#[test]
fn move_forward_decreases_x() {
    let navigator = WestNavigator {
        location: Location::create(0, 0),
    }
    .move_forward();

    assert_eq!(navigator.format(), "9:0:W")
}
