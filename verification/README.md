# vps_deployer

A terminal control center that deploys a full-stack project onto a VPS:
it clones and builds the repositories, stages editable `deploy.sh`,
systemd, nginx and backup files, installs them, opens the firewall,
schedules backups, and watches the server afterwards.

## Layout

- `src/` is the verified library (Verus). It holds the forms and the
  application state, the keyboard and mouse handling, the reports of the
  background work, the template rendering, the deployment, backup and
  removal procedures as step machines over system commands, and the texts
  of the screen.
  - `text`: string helpers with their specifications (trim, split, join,
    replace, decimal numbers, padding).
  - `config`: the project record, its validation and derived names.
  - `templates`, `docs`: rendering of the staged files and of the
    documentation.
  - `app`, `input`, `events`: the application state, what each input does,
    and how reports from background work are taken in.
  - `actions`, `deploy`, `rollout`, `maintenance`: the system commands of
    each procedure and the decisions taken on their outcomes.
  - `ui`, `view`, `theme`, `projects`: numbers and graphs as text, the
    screen texts, icon sets, and the order of saved projects.
- `app/` is the program around it: the terminal, drawing with ratatui,
  running commands with tokio, the monitor with sysinfo, and saving
  project records as JSON.
- `tests/` runs the library on concrete values.
