use music_tui::event::Event;
use music_tui::ui::{ColumnType, TableHeader, TableHeaderItem, TableType};

fn column(id: ColumnType, text: &str, width: u16) -> TableHeaderItem {
    TableHeaderItem { id, text: text.to_string(), width }
}

#[test]
fn get_index_finds_the_first_matching_column() {
    let header = TableHeader::new(
        TableType::Song,
        vec![
            column(ColumnType::Unset, "#", 3),
            column(ColumnType::Title, "Title", 40),
            column(ColumnType::Title, "Also title", 40),
        ],
    );
    assert_eq!(header.get_index(ColumnType::Title), Some(1));
    assert_eq!(header.get_index(ColumnType::Unset), Some(0));
}

#[test]
fn get_index_misses_on_an_absent_column() {
    let header = TableHeader::new(TableType::Playlist, Vec::new());
    assert_eq!(header.get_index(ColumnType::Title), None);

    let no_title = TableHeader::new(
        TableType::Album,
        vec![column(ColumnType::Unset, "#", 3)],
    );
    assert_eq!(no_title.get_index(ColumnType::Title), None);
}

#[test]
fn columns_start_without_a_role() {
    assert_eq!(ColumnType::default(), ColumnType::Unset);
}

#[test]
fn events_carry_inputs_or_ticks() {
    let input: Event<u8> = Event::Input(7);
    let tick: Event<u8> = Event::Tick;
    assert!(matches!(input, Event::Input(7)));
    assert!(matches!(tick, Event::Tick));
}
