//! The sharing contract of the dispatched grid: one writer and many
//! readers exclude each other on the lock, and a handle delivered through
//! the channel is a live reference to the one grid, not a frozen snapshot.

use std::sync::mpsc::channel;
use std::sync::{Arc, RwLock};

use rust_of_life::grid::Grid;

fn blinker() -> Grid {
    let mut grid = Grid::new(5, 5);
    for x in 1..4 {
        grid.set_alive(x, 2, true);
    }
    grid
}

#[test]
fn exclusive_write_excluded_while_read_held() {
    let lock = RwLock::new(blinker());
    let reader = lock.read().unwrap();
    assert!(lock.try_write().is_err(), "a writer must not enter while a reader holds the grid");
    drop(reader);
    let writer = lock.try_write();
    assert!(writer.is_ok(), "the writer must enter once the reader releases");
    drop(writer);
    let writer = lock.write().unwrap();
    assert!(lock.try_read().is_err(), "a reader must not enter while the writer holds the grid");
    drop(writer);
    assert!(lock.try_read().is_ok());
}

#[test]
fn delayed_reader_observes_later_generations() {
    let (sender, receiver) = channel();
    let shared: Arc<RwLock<Grid>> = Arc::new(RwLock::new(blinker()));

    // the dispatcher publishes a handle first ...
    sender.send(shared.clone()).unwrap();

    // ... and completes one further generation before the consumer looks
    shared.write().unwrap().iterate();

    let handle = receiver.recv().unwrap();
    let grid = handle.read().unwrap();
    // the consumer sees the vertical blinker of the later generation, not
    // the horizontal one of the moment the handle was sent
    assert!(grid.get_cell(2, 1).is_alive());
    assert!(grid.get_cell(2, 2).is_alive());
    assert!(grid.get_cell(2, 3).is_alive());
    assert!(!grid.get_cell(1, 2).is_alive());
    assert!(!grid.get_cell(3, 2).is_alive());
}
