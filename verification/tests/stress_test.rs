use std::collections::HashMap;
use std::path::PathBuf;
use tv::column::Column;
use tv::domain::{Message, TableConfig};
use tv::histogram::Histogram;
use tv::model::{FileInfo, Mode, Model};
use tv::search::find_matches;
use tv::sort::sort_rows;

fn stress_config() -> TableConfig {
    TableConfig { event_poll_time: 100, max_column_width: 8, column_margin: 1, max_header_length: 8 }
}

/// A small generator of numbers that looks random and always gives the same.
struct Dice(u64);

impl Dice {
    fn roll(&mut self, sides: u64) -> u64 {
        self.0 = self.0.wrapping_mul(6364136223846793005).wrapping_add(1442695040888963407);
        (self.0 >> 33) % sides
    }
}

fn random_words(dice: &mut Dice, count: usize, letters: u64, longest: u64) -> Vec<String> {
    (0..count)
        .map(|_| {
            let len = dice.roll(longest + 1);
            (0..len).map(|_| (b'a' + dice.roll(letters) as u8) as char).collect()
        })
        .collect()
}

fn word_column(idx: usize, name: &str, words: &[String]) -> Column {
    let raw: Vec<Option<String>> = words.iter().map(|w| Some(w.clone())).collect();
    Model::process_column(idx, name, false, raw, Vec::new(), &stress_config()).unwrap()
}

#[test]
fn sort_rows_agrees_with_a_sort_of_the_texts() {
    let mut dice = Dice(7);
    let words = random_words(&mut dice, 500, 3, 4);
    let column = word_column(0, "w", &words);
    let rows: Vec<usize> = (0..500).map(|_| dice.roll(500) as usize).collect();
    let mut expected: Vec<String> = rows.iter().map(|r| words[*r].clone()).collect();
    expected.sort();
    let ascending = sort_rows(rows.clone(), &column, false);
    let got: Vec<String> = ascending.iter().map(|r| words[*r].clone()).collect();
    assert_eq!(got, expected);
    let mut kept = ascending.clone();
    kept.sort();
    let mut given = rows.clone();
    given.sort();
    assert_eq!(kept, given);
    expected.reverse();
    let descending = sort_rows(rows, &column, true);
    let got: Vec<String> = descending.iter().map(|r| words[*r].clone()).collect();
    assert_eq!(got, expected);
}

#[test]
fn numeric_sort_agrees_with_a_sort_of_the_numbers() {
    let mut dice = Dice(11);
    let numbers: Vec<i64> = (0..300).map(|_| dice.roll(200) as i64 - 100).collect();
    let texts: Vec<String> = numbers.iter().map(|n| n.to_string()).collect();
    let raw: Vec<Option<String>> = texts.iter().map(|t| Some(t.clone())).collect();
    let keys: Vec<Option<i64>> = numbers.iter().map(|n| Some(*n)).collect();
    let column = Model::process_column(0, "n", true, raw, keys, &stress_config()).unwrap();
    let sorted = sort_rows((0..300).collect(), &column, false);
    let got: Vec<i64> = sorted.iter().map(|r| numbers[*r]).collect();
    let mut expected = numbers.clone();
    expected.sort();
    assert_eq!(got, expected);
    let sorted = sort_rows((0..300).collect(), &column, true);
    let got: Vec<i64> = sorted.iter().map(|r| numbers[*r]).collect();
    expected.reverse();
    assert_eq!(got, expected);
}

#[test]
fn sort_rows_keeps_equal_cells_in_their_order() {
    let mut dice = Dice(3);
    let words = random_words(&mut dice, 400, 2, 2);
    let column = word_column(0, "w", &words);
    let sorted = sort_rows((0..400).collect(), &column, false);
    let mut expected: Vec<usize> = (0..400).collect();
    expected.sort_by_key(|i| words[*i].clone());
    assert_eq!(sorted, expected);
}

#[test]
fn histogram_agrees_with_a_count_by_hand() {
    let mut dice = Dice(19);
    let words = random_words(&mut dice, 600, 2, 3);
    let column = word_column(0, "w", &words);
    let rows: Vec<usize> = (0..400).map(|_| dice.roll(600) as usize).collect();
    let mut counted: HashMap<String, usize> = HashMap::new();
    for r in rows.iter() {
        *counted.entry(words[*r].clone()).or_insert(0) += 1;
    }
    let mut expected: Vec<(usize, String)> = counted.into_iter().map(|(v, c)| (c, v)).collect();
    expected.sort();
    expected.reverse();
    let histogram = Histogram::compute(&rows, &column.data);
    let got: Vec<(usize, String)> = histogram.counts.iter().cloned().zip(histogram.values.iter().cloned()).collect();
    assert_eq!(got, expected);
    assert_eq!(histogram.counts.iter().sum::<usize>(), rows.len());
}

#[test]
fn search_agrees_with_a_scan_by_hand() {
    let mut dice = Dice(23);
    let columns: Vec<Column> = (0..7)
        .map(|c| word_column(c, "c", &random_words(&mut dice, 200, 3, 5)))
        .collect();
    let rows: Vec<usize> = (0..150).map(|_| dice.roll(200) as usize).collect();
    for pattern in ["a", "ab", "cab", "", "abcabc"] {
        let mut expected: Vec<(usize, usize)> = Vec::new();
        for (r, row) in rows.iter().enumerate() {
            for (c, column) in columns.iter().enumerate() {
                if column.data[*row].contains(pattern) {
                    expected.push((r, c));
                }
            }
        }
        assert_eq!(find_matches(&rows, &columns, pattern, None), expected);
        let only: Vec<(usize, usize)> = expected.iter().cloned().filter(|hit| hit.1 == 4).collect();
        assert_eq!(find_matches(&rows, &columns, pattern, Some(4)), only);
    }
}

#[test]
fn every_message_keeps_the_selection_inside_the_view() {
    let mut dice = Dice(5);
    let columns: Vec<Column> = (0..6)
        .map(|c| word_column(c, "col", &random_words(&mut dice, 40, 4, 12)))
        .collect();
    let info = FileInfo::new(PathBuf::from("s.csv"), 1, Some("csv")).unwrap();
    let mut model = Model::load("s.csv".to_string(), info, columns, stress_config(), 30, 9).unwrap();
    let messages = [
        Message::MoveDown,
        Message::MoveUp,
        Message::MoveLeft,
        Message::MoveRight,
        Message::PageDown,
        Message::PageUp,
        Message::MoveBeginning,
        Message::MoveEnd,
        Message::MoveFirstColumn,
        Message::MoveLastColumn,
        Message::ToggleIndex,
        Message::ToggleCollapse,
        Message::ToggleExpand,
        Message::SortAscending,
        Message::SortDescending,
        Message::Enter,
        Message::Exit,
        Message::Help,
        Message::Histogram,
        Message::SearchNext,
        Message::SearchPrevious,
        Message::CopyCell,
        Message::CopyRow,
        Message::MoveDown,
        Message::MoveRight,
        Message::MoveDown,
        Message::MoveRight,
    ];
    for step in 0..3000 {
        let message = if dice.roll(25) == 0 {
            Message::Resize(dice.roll(40) as usize, dice.roll(14) as usize)
        } else {
            messages[dice.roll(messages.len() as u64) as usize]
        };
        model.update(message).unwrap();
        assert!(!model.views.is_empty(), "step {step}");
        let view = model.views.last().unwrap();
        if !view.rows.is_empty() {
            assert!(view.offset_row + view.curser_row < view.rows.len(), "step {step}");
        }
        assert!(view.curser_row < view.height || view.curser_row == 0, "step {step}");
        assert!(view.curser_column < view.visible_columns.len(), "step {step}");
        assert!(view.offset_column + view.curser_column < model.columns.len(), "step {step}");
        assert_eq!(view.data.len(), view.visible_columns.len(), "step {step}");
        for hit in view.search_results.iter() {
            assert!(hit.0 < view.rows.len() && hit.1 < model.columns.len());
        }
        match model.mode {
            Mode::Record => assert!(model.record.is_some()),
            Mode::Histogram => assert!(model.histogram.is_some()),
            _ => {}
        }
    }
}
