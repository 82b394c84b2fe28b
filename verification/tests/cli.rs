use tabby_index_cli::cli::{plan_command, CliPlan, Commands};
use tabby_index_cli::config::Repository;

fn tabby(source_id: &str) -> Repository {
    Repository { git_url: "https://github.com/TabbyML/tabby".to_string(), source_id: source_id.to_string() }
}

#[test]
fn index_and_search_work_on_the_tabby_repository() {
    assert_eq!(plan_command::<u8, u8>(Commands::Index, "config:0".to_string()), CliPlan::Index(tabby("config:0")));
    assert_eq!(plan_command::<u8, u8>(Commands::Search, "config:0".to_string()), CliPlan::Search(tabby("config:0")));
}

#[test]
fn other_commands_pass_their_arguments_on() {
    assert_eq!(plan_command::<u8, u16>(Commands::Inspect, "c".to_string()), CliPlan::Inspect);
    assert_eq!(plan_command::<u8, u16>(Commands::Bench(3), "c".to_string()), CliPlan::Bench(3));
    assert_eq!(plan_command::<u8, u16>(Commands::Head(9), "c".to_string()), CliPlan::Head(9));
}
