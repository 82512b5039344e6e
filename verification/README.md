# cce_authenticator

A session authenticator: the desktop's polkit agent, with a dialog that takes a password or
a finger.

`src/` is the library. It holds the decisions that the agent and its dialog make, as
functions from plain values to plain values, verified with Verus:

- `simulate`: when the simulated authenticator may stand in for PAM;
- `cookies`, `request`: cancellations in every order, and requests answered once each;
- `dialog`, `dialog_laws`: the dialog's state machine and what holds of it over any series
  of events;
- `helper`, `pam`, `attempt`, `fingerprint`: the helper's protocol and its process, a PAM
  transaction, what attempts report, and a scan on the fingerprint reader;
- `accounts`, `identity`, `session`: the account database, who is authenticated, and for
  which login session;
- `input`, `appearance`, `caption`, `text`: keys and clicks, looks, and captions cut to
  their column.

Outside of Verus's sight are three lookups in the system's account database (`accounts`) and
two functions of the standard library (`text`); their contracts are stated beside them.

`app/` is the program: bus, processes, PAM, window and painting, with the window's layout in
floating point.
