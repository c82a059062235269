//! Events in an elevator system: buttons, arrivals, and door movements.

use vstd::prelude::*;

verus! {

/// A floor is represented as an integer.
pub type Floor = i32;

/// A direction of travel.
#[derive(Debug)]
pub enum Direction {
    Up,
    Down,
}

/// A button a passenger can press.
#[derive(Debug)]
pub enum Button {
    /// A button in the elevator lobby on the given floor.
    LobbyCall(Direction, Floor),
    /// A floor button within the car.
    CarFloor(Floor),
}

/// An event in the elevator system that the controller must react to.
#[derive(Debug)]
pub enum Event {
    /// A button was pressed.
    ButtonPressed(Button),
    /// The car has arrived at the given floor.
    CarArrived(Floor),
    /// The car's doors have opened.
    CarDoorOpened,
    /// The car's doors have closed.
    CarDoorClosed,
}

/// The car has arrived on the given floor.
pub fn car_arrived(floor: i32) -> (event: Event)
    ensures
        event == Event::CarArrived(floor),
{
    Event::CarArrived(floor)
}

/// The car doors have opened.
pub fn car_door_opened() -> (event: Event)
    ensures
        event == Event::CarDoorOpened,
{
    Event::CarDoorOpened
}

/// The car doors have closed.
pub fn car_door_closed() -> (event: Event)
    ensures
        event == Event::CarDoorClosed,
{
    Event::CarDoorClosed
}

/// A directional button was pressed in an elevator lobby on the given floor.
pub fn lobby_call_button_pressed(floor: i32, dir: Direction) -> (event: Event)
    ensures
        event == Event::ButtonPressed(Button::LobbyCall(dir, floor)),
{
    Event::ButtonPressed(Button::LobbyCall(dir, floor))
}

/// A floor button was pressed in the elevator car.
pub fn car_floor_button_pressed(floor: i32) -> (event: Event)
    ensures
        event == Event::ButtonPressed(Button::CarFloor(floor)),
{
    Event::ButtonPressed(Button::CarFloor(floor))
}

} // verus!
