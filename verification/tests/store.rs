use todo_list::{Timestamp, Todo, TodoList};

fn at(secs: i64) -> Timestamp {
    Timestamp::new(secs, 0)
}

fn ids(list: &TodoList) -> Vec<usize> {
    list.list_todos().iter().map(|todo| todo.id).collect()
}

#[test]
fn new_list_is_empty_and_starts_at_one() {
    let list = TodoList::new();
    assert!(list.list_todos().is_empty());
    assert_eq!(list.next_id(), 1);
    assert!(list.get_todo(1).is_none());
}

#[test]
fn create_gives_back_the_new_record() {
    let mut list = TodoList::new();
    let todo = list.add_todo_at("Buy milk".to_string(), "2%".to_string(), at(100));
    assert_eq!(
        todo,
        Todo {
            id: 1,
            title: "Buy milk".to_string(),
            description: "2%".to_string(),
            completed: false,
            created_at: at(100),
            updated_at: at(100),
        }
    );
    assert_eq!(list.get_todo(1), Some(&todo));
    assert_eq!(list.next_id(), 2);
}

#[test]
fn create_delete_create_keeps_ids_and_order() {
    let mut list = TodoList::new();
    let milk = list.add_todo_at("Buy milk".to_string(), "2%".to_string(), at(1));
    assert_eq!(milk.id, 1);
    assert!(!milk.completed);
    let bills = list.add_todo_at("Pay bills".to_string(), String::new(), at(2));
    assert_eq!(bills.id, 2);
    assert!(list.delete_todo(1));
    let dog = list.add_todo_at("Walk dog".to_string(), String::new(), at(3));
    assert_eq!(dog.id, 3);
    assert_eq!(ids(&list), vec![2, 3]);
    assert_eq!(list.list_todos()[0].title, "Pay bills");
    assert_eq!(list.list_todos()[1].title, "Walk dog");
    assert!(list.get_todo(1).is_none());
}

#[test]
fn edit_of_a_missing_id_changes_nothing() {
    let mut list = TodoList::new();
    assert!(!list.edit_todo_at(99, "x".to_string(), "y".to_string(), at(5)));
    assert!(list.list_todos().is_empty());
    assert_eq!(list.next_id(), 1);

    list.add_todo_at("a".to_string(), "b".to_string(), at(1));
    let before = list.snapshot();
    assert!(!list.edit_todo_at(99, "x".to_string(), "y".to_string(), at(5)));
    assert!(!list.edit_todo(98, "x".to_string(), "y".to_string()));
    assert_eq!(list.snapshot().todos, before.todos);
    assert_eq!(list.next_id(), before.next_id);
}

#[test]
fn ids_count_up_from_one_whatever_is_deleted() {
    let mut list = TodoList::new();
    let mut issued = Vec::new();
    for round in 0..10usize {
        let todo = list.add_todo_at(format!("task {}", round), String::new(), at(round as i64));
        issued.push(todo.id);
        if round % 3 == 0 {
            assert!(list.delete_todo(todo.id));
        } else if round % 4 == 1 {
            assert!(list.toggle_completed_at(todo.id, at(round as i64)));
        }
    }
    assert_eq!(issued, vec![1, 2, 3, 4, 5, 6, 7, 8, 9, 10]);
    assert_eq!(list.next_id(), 11);
    assert_eq!(ids(&list), vec![2, 3, 5, 6, 8, 9]);
}

#[test]
fn a_deleted_id_is_not_found_and_not_issued_again() {
    let mut list = TodoList::new();
    list.add_todo_at("one".to_string(), String::new(), at(1));
    list.add_todo_at("two".to_string(), String::new(), at(2));
    assert!(list.delete_todo(2));
    assert!(list.get_todo(2).is_none());
    assert!(!list.delete_todo(2));
    assert!(!list.toggle_completed_at(2, at(3)));
    let next = list.add_todo_at("three".to_string(), String::new(), at(4));
    assert_eq!(next.id, 3);
    assert!(list.get_todo(2).is_none());
    assert_eq!(ids(&list), vec![1, 3]);
}

#[test]
fn delete_of_the_only_record_leaves_an_empty_list() {
    let mut list = TodoList::new();
    list.add_todo_at("one".to_string(), String::new(), at(1));
    assert!(list.delete_todo(1));
    assert!(list.list_todos().is_empty());
    assert_eq!(list.next_id(), 2);
}

#[test]
fn delete_keeps_the_order_of_the_others() {
    let mut list = TodoList::new();
    for n in 0..5 {
        list.add_todo_at(format!("t{}", n), String::new(), at(n));
    }
    assert!(list.delete_todo(3));
    assert_eq!(ids(&list), vec![1, 2, 4, 5]);
    assert!(list.delete_todo(1));
    assert_eq!(ids(&list), vec![2, 4, 5]);
    assert!(list.delete_todo(5));
    assert_eq!(ids(&list), vec![2, 4]);
    assert!(!list.delete_todo(0));
}

#[test]
fn edit_replaces_the_text_and_the_time_of_the_last_touch() {
    let mut list = TodoList::new();
    list.add_todo_at("old".to_string(), "text".to_string(), at(10));
    list.add_todo_at("other".to_string(), "stays".to_string(), at(11));
    assert!(list.toggle_completed_at(1, at(12)));
    assert!(list.edit_todo_at(1, "new".to_string(), "words".to_string(), at(20)));
    assert_eq!(
        list.get_todo(1),
        Some(&Todo {
            id: 1,
            title: "new".to_string(),
            description: "words".to_string(),
            completed: true,
            created_at: at(10),
            updated_at: at(20),
        })
    );
    let other = list.get_todo(2).unwrap();
    assert_eq!(other.title, "other");
    assert_eq!(other.description, "stays");
    assert_eq!(other.updated_at, at(11));
    assert_eq!(ids(&list), vec![1, 2]);
    assert_eq!(list.next_id(), 3);
}

#[test]
fn toggle_twice_restores_the_flag() {
    let mut list = TodoList::new();
    list.add_todo_at("a".to_string(), "b".to_string(), at(1));
    assert!(list.toggle_completed_at(1, at(2)));
    let once = list.get_todo(1).unwrap().clone();
    assert!(once.completed);
    assert_eq!(once.updated_at, at(2));
    assert_eq!(once.created_at, at(1));
    assert!(list.toggle_completed_at(1, at(3)));
    let twice = list.get_todo(1).unwrap();
    assert!(!twice.completed);
    assert_eq!(twice.updated_at, at(3));
    assert_eq!(twice.created_at, at(1));
    assert_eq!(twice.title, "a");
    assert_eq!(twice.description, "b");
}

#[test]
fn toggle_of_a_missing_id_reports_it() {
    let mut list = TodoList::new();
    assert!(!list.toggle_completed_at(1, at(1)));
    assert!(!list.toggle_completed(1));
    list.add_todo_at("a".to_string(), String::new(), at(1));
    assert!(!list.toggle_completed_at(2, at(2)));
    assert!(!list.get_todo(1).unwrap().completed);
    assert_eq!(list.get_todo(1).unwrap().updated_at, at(1));
}

#[test]
fn a_touch_takes_the_time_it_is_given_even_an_earlier_one() {
    let mut list = TodoList::new();
    list.add_todo_at("a".to_string(), String::new(), at(50));
    assert!(list.edit_todo_at(1, "b".to_string(), String::new(), at(40)));
    let todo = list.get_todo(1).unwrap();
    assert_eq!(todo.updated_at, at(40));
    assert_eq!(todo.created_at, at(50));
}

#[test]
fn empty_titles_and_descriptions_are_accepted() {
    let mut list = TodoList::new();
    let todo = list.add_todo_at(String::new(), String::new(), at(1));
    assert_eq!(todo.id, 1);
    assert_eq!(todo.title, "");
    assert!(list.edit_todo_at(1, String::new(), "é ü".to_string(), at(2)));
    assert_eq!(list.get_todo(1).unwrap().description, "é ü");
}

#[test]
fn record_equality_compares_every_field() {
    let base = Todo {
        id: 1,
        title: "t".to_string(),
        description: "d".to_string(),
        completed: false,
        created_at: at(1),
        updated_at: at(2),
    };
    assert_eq!(base, base.clone());
    assert_ne!(base, Todo { id: 2, ..base.clone() });
    assert_ne!(base, Todo { title: "u".to_string(), ..base.clone() });
    assert_ne!(base, Todo { description: "e".to_string(), ..base.clone() });
    assert_ne!(base, Todo { completed: true, ..base.clone() });
    assert_ne!(base, Todo { created_at: at(0), ..base.clone() });
    assert_ne!(base, Todo { updated_at: at(3), ..base.clone() });
}

#[test]
fn the_default_list_is_the_new_list() {
    let list = TodoList::default();
    assert!(list.list_todos().is_empty());
    assert_eq!(list.next_id(), 1);
}
