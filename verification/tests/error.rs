use strata::error::StrataError;

#[test]
fn messages_read_as_written() {
    assert_eq!(StrataError::CommandNotFound.to_string(), "Command not found");
    assert_eq!(
        StrataError::FailedToReadDir("/x".to_string()).to_string(),
        "Failed to get file name for path: /x"
    );
    assert_eq!(
        StrataError::IndexOutOfBounds { max: 2, requested: 10 }.to_string(),
        "Index out of bounds: max:[2], requested:[10]"
    );
    assert_eq!(
        StrataError::InvalidColumnIndex { max: 0, requested: 1 }.to_string(),
        "Invalid column index: max:[0], requested:[1]"
    );
    assert_eq!(
        StrataError::InvalidRowIndex { max: 10, requested: 11 }.to_string(),
        "Invalid row index: max:[10], requested:[11]"
    );
    assert_eq!(
        StrataError::InvalidOperationCall {
            operation: "cancel".to_string(),
            focus: "say \"hi\"".to_string()
        }
        .to_string(),
        "Invalid operation was called:  operation:[\"cancel\"], focus:[\"say \\\"hi\\\"\"]"
    );
    assert_eq!(StrataError::InvalidTableName.to_string(), "Invalid table name");
    assert_eq!(
        StrataError::ItemNotFound("it".to_string()).to_string(),
        "Item not found: item_name:[it]"
    );
    assert_eq!(StrataError::NoCellSelected.to_string(), "No cell selected");
    assert_eq!(StrataError::NoItemSelected.to_string(), "No item selected");
    assert_eq!(StrataError::NoTableAdded.to_string(), "No table added");
    assert_eq!(StrataError::NoTableSelected.to_string(), "No table selected");
    assert_eq!(
        StrataError::StringParseError("1 a".to_string()).to_string(),
        "String parse failed: 1 a"
    );
    assert_eq!(StrataError::TableHasNoHeader.to_string(), "Table Has No Header");
    assert_eq!(
        StrataError::TableNameDuplicate("t".to_string()).to_string(),
        "Table already exists: table_name:[t]"
    );
    assert_eq!(
        StrataError::TableNotFound("t".to_string()).to_string(),
        "Table not found: table_name:[t]"
    );
    assert_eq!(StrataError::CsvParseError("bad csv".to_string()).to_string(), "bad csv");
    assert_eq!(StrataError::IoError("no file".to_string()).to_string(), "no file");
}
