use lcu_connect::extract::{
    bearer_token, credentials_from_captures, extract_credentials, get_lcu_port_token,
    ExtractionError,
};
use lcu_connect::process::{is_lol_running, locate_target};
use lcu_connect::query::{launch_outcome, query_arguments, ARTIFACT_NAME};

const COMMAND_LINE: &str = "CommandLine : \"C:/Riot Games/League of Legends/LeagueClientUx.exe\" \
     \"--riotclient-auth-token=Zm9vYmFy\" \"--riotclient-app-port=51234\" \
     \"--remoting-auth-token=s3cr3t_Token\" \"--app-port=51987\" \"--locale=en_GB\"";

fn names(list: &[&str]) -> Vec<String> {
    list.iter().map(|name| name.to_string()).collect()
}

#[test]
fn test_get_lcu_port_token() {
    let auth_info = get_lcu_port_token(COMMAND_LINE).unwrap();
    println!("app_port: {}", auth_info.port);
    println!("remoting_auth_token: {}", auth_info.token);
    assert_ne!(auth_info.port, "");
    assert_ne!(auth_info.token, "");
}

#[test]
fn port_and_token_of_a_plain_command_line() {
    let found =
        get_lcu_port_token("LeagueClientUx.exe --app-port=2999 --remoting-auth-token=abc123")
            .unwrap();
    assert_eq!(found.port, "2999");
    assert_eq!(found.token, "cmlvdDphYmMxMjM=");
}

#[test]
fn flags_of_the_launcher_are_not_taken_for_the_client_s() {
    let found = get_lcu_port_token(COMMAND_LINE).unwrap();
    assert_eq!(found.port, "51987");
    assert_eq!(found.token, "cmlvdDpzM2NyM3RfVG9rZW4=");
}

#[test]
fn only_launcher_flags_is_malformed() {
    let outcome =
        get_lcu_port_token("\"--riotclient-auth-token=Zm9vYmFy\" \"--riotclient-app-port=51234\"");
    assert_eq!(outcome.unwrap_err(), ExtractionError::MalformedCommandLine);
}

#[test]
fn missing_port_flag_is_malformed() {
    let outcome = get_lcu_port_token("LeagueClientUx.exe --remoting-auth-token=abc123");
    assert_eq!(outcome.unwrap_err(), ExtractionError::MalformedCommandLine);
}

#[test]
fn missing_secret_flag_is_malformed() {
    let outcome = get_lcu_port_token("LeagueClientUx.exe --app-port=2999");
    assert_eq!(outcome.unwrap_err(), ExtractionError::MalformedCommandLine);
}

#[test]
fn empty_command_line_is_malformed() {
    assert_eq!(get_lcu_port_token("").unwrap_err(), ExtractionError::MalformedCommandLine);
}

#[test]
fn port_flag_without_digits_is_malformed() {
    let outcome = get_lcu_port_token("--app-port=none --remoting-auth-token=abc123");
    assert_eq!(outcome.unwrap_err(), ExtractionError::MalformedCommandLine);
}

#[test]
fn secret_flag_without_value_is_malformed() {
    let outcome = get_lcu_port_token("--app-port=2999 --remoting-auth-token= --x");
    assert_eq!(outcome.unwrap_err(), ExtractionError::MalformedCommandLine);
}

#[test]
fn first_occurrence_of_a_flag_wins() {
    let found = get_lcu_port_token(
        "--app-port=1111 --remoting-auth-token=first --app-port=2222 --remoting-auth-token=second",
    )
    .unwrap();
    assert_eq!(found.port, "1111");
    assert_eq!(found.token, bearer_token("first").unwrap());
}

#[test]
fn port_ends_with_its_digits_and_secret_with_its_word() {
    let found = get_lcu_port_token("--app-port=2999abc --remoting-auth-token=abc-def").unwrap();
    assert_eq!(found.port, "2999");
    assert_eq!(found.token, "cmlvdDphYmM=");
}

#[test]
fn extraction_is_repeatable() {
    let first = get_lcu_port_token(COMMAND_LINE).unwrap();
    let second = get_lcu_port_token(COMMAND_LINE).unwrap();
    assert_eq!(first.port, second.port);
    assert_eq!(first.token, second.token);
}

#[test]
fn bearer_token_is_padded_standard_base64() {
    assert_eq!(bearer_token("abc123").unwrap(), "cmlvdDphYmMxMjM=");
    assert_eq!(bearer_token("").unwrap(), "cmlvdDo=");
    assert_eq!(bearer_token("a").unwrap(), "cmlvdDph");
    assert_eq!(bearer_token("ab").unwrap(), "cmlvdDphYg==");
}

#[test]
fn bearer_token_uses_the_standard_alphabet() {
    let token = bearer_token("\u{3ff}\u{7ff}?>").unwrap();
    assert_eq!(token, "cmlvdDrPv9+/Pz4=");
}

#[test]
fn captures_give_credentials_only_together() {
    let both =
        credentials_from_captures(Some("2999".to_string()), Some("abc123".to_string())).unwrap();
    assert_eq!(both.port, "2999");
    assert_eq!(both.token, "cmlvdDphYmMxMjM=");
    assert_eq!(
        credentials_from_captures(None, Some("abc123".to_string())).unwrap_err(),
        ExtractionError::MalformedCommandLine
    );
    assert_eq!(
        credentials_from_captures(Some("2999".to_string()), None).unwrap_err(),
        ExtractionError::MalformedCommandLine
    );
    assert_eq!(
        credentials_from_captures(None, None).unwrap_err(),
        ExtractionError::MalformedCommandLine
    );
}

#[test]
fn launch_codes_above_the_threshold_are_launches() {
    assert_eq!(launch_outcome(33), Ok(()));
    assert_eq!(launch_outcome(42), Ok(()));
    assert_eq!(launch_outcome(i32::MAX), Ok(()));
}

#[test]
fn launch_codes_up_to_the_threshold_are_failures() {
    assert_eq!(launch_outcome(32), Err(ExtractionError::QueryFailed));
    assert_eq!(launch_outcome(0), Err(ExtractionError::QueryFailed));
    assert_eq!(launch_outcome(2), Err(ExtractionError::QueryFailed));
    assert_eq!(launch_outcome(-1), Err(ExtractionError::QueryFailed));
    assert_eq!(launch_outcome(i32::MIN), Err(ExtractionError::QueryFailed));
}

#[test]
fn launch_code_of_denied_access_is_a_refusal() {
    assert_eq!(launch_outcome(5), Err(ExtractionError::PrivilegeDenied));
}

#[test]
fn target_is_matched_by_its_full_name_only() {
    assert!(is_lol_running(&names(&["explorer.exe", "LeagueClientUx.exe", "cmd.exe"])));
    assert!(!is_lol_running(&names(&[])));
    assert!(!is_lol_running(&names(&["LeagueClient.exe", "LeagueClientUx", "RiotClientUx.exe"])));
    assert!(!is_lol_running(&names(&["leagueclientux.exe"])));
    assert!(!is_lol_running(&names(&["LeagueClientUx.exe.bak", "xLeagueClientUx.exe"])));
}

#[test]
fn locating_fails_exactly_without_the_target() {
    assert_eq!(locate_target(&names(&["LeagueClientUx.exe"])), Ok(()));
    assert_eq!(locate_target(&names(&["cmd.exe"])), Err(ExtractionError::ProcessNotFound));
}

#[test]
fn attempt_without_the_target_is_process_not_found() {
    let outcome = extract_credentials(&names(&["cmd.exe"]), Some(42), Some(COMMAND_LINE));
    assert_eq!(outcome.unwrap_err(), ExtractionError::ProcessNotFound);
}

#[test]
fn attempt_with_a_refused_launch_is_privilege_denied() {
    let outcome = extract_credentials(&names(&["LeagueClientUx.exe"]), Some(5), None);
    assert_eq!(outcome.unwrap_err(), ExtractionError::PrivilegeDenied);
}

#[test]
fn attempt_with_a_failed_or_missing_launch_is_query_failed() {
    let present = names(&["LeagueClientUx.exe"]);
    assert_eq!(
        extract_credentials(&present, Some(31), Some(COMMAND_LINE)).unwrap_err(),
        ExtractionError::QueryFailed
    );
    assert_eq!(
        extract_credentials(&present, None, Some(COMMAND_LINE)).unwrap_err(),
        ExtractionError::QueryFailed
    );
}

#[test]
fn attempt_with_unreadable_output_is_query_failed() {
    let outcome = extract_credentials(&names(&["LeagueClientUx.exe"]), Some(42), None);
    assert_eq!(outcome.unwrap_err(), ExtractionError::QueryFailed);
}

#[test]
fn attempt_with_malformed_output_is_malformed() {
    let outcome = extract_credentials(&names(&["LeagueClientUx.exe"]), Some(42), Some("\n"));
    assert_eq!(outcome.unwrap_err(), ExtractionError::MalformedCommandLine);
}

#[test]
fn attempt_that_ran_through_gives_the_credentials() {
    let found =
        extract_credentials(&names(&["LeagueClientUx.exe"]), Some(42), Some(COMMAND_LINE))
            .unwrap();
    assert_eq!(found.port, "51987");
    assert_eq!(found.token, "cmlvdDpzM2NyM3RfVG9rZW4=");
}

#[test]
fn query_asks_for_the_target_and_writes_to_the_path() {
    assert_eq!(
        query_arguments("C:\\Temp\\lol_command.txt"),
        "-NoExit -Command \"Get-WmiObject -Query 'SELECT CommandLine FROM Win32_Process WHERE \
         Name=''LeagueClientUx.exe''' | Format-List CommandLine | Out-File -Width 9999 -Encoding \
         UTF8 -FilePath 'C:\\Temp\\lol_command.txt'\""
    );
    assert_eq!(ARTIFACT_NAME, "lol_command.txt");
}

#[test]
fn every_extraction_error_has_its_message() {
    assert_eq!(ExtractionError::ProcessNotFound.message(), "The game client is not running");
    assert_eq!(ExtractionError::PrivilegeDenied.message(), "The elevated query was refused");
    assert_eq!(ExtractionError::QueryFailed.message(), "Failed to execute command");
    assert_eq!(
        ExtractionError::MalformedCommandLine.message(),
        "The command line holds no port and token"
    );
}
